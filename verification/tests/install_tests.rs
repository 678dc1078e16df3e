use fyg::dirs::FygDirs;
use fyg::error::FygError;
use fyg::install::{
    find_asset_index, install_start, install_step, InstallContext, InstallEvent, InstallStep,
    ReleaseAsset,
};
use fyg::platform::Platform;
use fyg::version::GodotVersion;

fn linux_dirs() -> FygDirs {
    FygDirs::new("/data", "/cache", Platform::Linux64)
}

fn context(force: bool) -> InstallContext {
    let v = GodotVersion::new("4.2", false).unwrap();
    InstallContext::resolve(&linux_dirs(), &v, force)
}

#[test]
fn resolve_collects_paths_tag_and_asset_name() {
    let ctx = context(false);
    assert!(!ctx.force);
    assert_eq!(
        ctx.bin_path,
        "/data/find-your-godot/engines/4.2.0-stable/Godot_v4.2.0-stable_linux.x86_64"
    );
    assert_eq!(ctx.install_dir, "/data/find-your-godot/engines/4.2.0-stable");
    assert_eq!(ctx.cache_dir, "/cache/find-your-godot/engines/4.2.0-stable");
    assert_eq!(
        ctx.cache_zip_path,
        "/cache/find-your-godot/engines/4.2.0-stable/Godot_v4.2.0-stable_linux_x86_64.zip"
    );
    assert_eq!(ctx.asset_name, "Godot_v4.2.0-stable_linux_x86_64.zip");
    assert_eq!(ctx.tag, "4.2.0-stable");
}

#[test]
fn second_install_without_force_reports_already_installed() {
    let ctx = context(false);
    let start = install_start(&ctx);
    assert!(matches!(start, InstallStep::CheckInstalled));
    let next = install_step(&ctx, start, InstallEvent::Exists { yes: true });
    assert!(matches!(
        next,
        InstallStep::Failed { error: FygError::AlreadyInstalled }
    ));
}

#[test]
fn forced_install_removes_the_previous_install_first() {
    let ctx = context(true);
    let start = install_start(&ctx);
    assert!(matches!(start, InstallStep::RemovePrevious));
    let next = install_step(&ctx, start, InstallEvent::Removed);
    assert!(matches!(next, InstallStep::CheckCache));
}

#[test]
fn cache_hit_installs_without_any_network_step() {
    let ctx = context(false);
    let s0 = install_start(&ctx);
    assert!(matches!(s0, InstallStep::CheckInstalled));
    let s1 = install_step(&ctx, s0, InstallEvent::Exists { yes: false });
    assert!(matches!(s1, InstallStep::CheckCache));
    let s2 = install_step(&ctx, s1, InstallEvent::Exists { yes: true });
    assert!(matches!(s2, InstallStep::Extract { from_cache: true }));
    let s3 = install_step(&ctx, s2, InstallEvent::Extracted);
    assert!(matches!(s3, InstallStep::WriteMarker));
    let s4 = install_step(&ctx, s3, InstallEvent::Marked);
    assert!(matches!(s4, InstallStep::Done));
}

#[test]
fn cache_miss_goes_to_the_release_source() {
    let ctx = context(false);
    let s0 = install_start(&ctx);
    let s1 = install_step(&ctx, s0, InstallEvent::Exists { yes: false });
    let s2 = install_step(&ctx, s1, InstallEvent::Exists { yes: false });
    assert!(matches!(s2, InstallStep::FetchRelease));
}

#[test]
fn missing_release_reports_version_not_found() {
    let ctx = context(false);
    let next = install_step(&ctx, InstallStep::FetchRelease, InstallEvent::ReleaseNotFound);
    assert!(matches!(
        next,
        InstallStep::Failed { error: FygError::VersionNotFound }
    ));
}

#[test]
fn release_without_matching_asset_reports_unsupported_platform() {
    let ctx = context(false);
    let assets = vec![
        ReleaseAsset {
            name: "Godot_v4.2.0-stable_win64.zip".to_string(),
            url: "https://example.invalid/win64".to_string(),
        },
        ReleaseAsset {
            name: "Godot_v4.2.0-stable_macos.universal.zip".to_string(),
            url: "https://example.invalid/macos".to_string(),
        },
    ];
    let next = install_step(
        &ctx,
        InstallStep::FetchRelease,
        InstallEvent::ReleaseFound { assets },
    );
    assert!(matches!(
        next,
        InstallStep::Failed { error: FygError::UnsupportedPlatform }
    ));
}

#[test]
fn matching_asset_is_downloaded_from_its_url() {
    let ctx = context(false);
    let assets = vec![
        ReleaseAsset {
            name: "Godot_v4.2.0-stable_win64.zip".to_string(),
            url: "https://example.invalid/win64".to_string(),
        },
        ReleaseAsset {
            name: "Godot_v4.2.0-stable_linux_x86_64.zip".to_string(),
            url: "https://example.invalid/linux64".to_string(),
        },
    ];
    let next = install_step(
        &ctx,
        InstallStep::FetchRelease,
        InstallEvent::ReleaseFound { assets },
    );
    match next {
        InstallStep::Download { url } => assert_eq!(url, "https://example.invalid/linux64"),
        other => panic!("expected a download step, got {:?}", step_name(&other)),
    }
}

#[test]
fn downloaded_bytes_are_cached_before_extraction() {
    let ctx = context(false);
    let url = "https://example.invalid/linux64".to_string();
    let s0 = install_step(
        &ctx,
        InstallStep::Download { url },
        InstallEvent::Downloaded,
    );
    assert!(matches!(s0, InstallStep::PersistCache));
    let s1 = install_step(&ctx, s0, InstallEvent::Persisted);
    assert!(matches!(s1, InstallStep::Extract { from_cache: false }));
    let s2 = install_step(&ctx, s1, InstallEvent::Extracted);
    assert!(matches!(s2, InstallStep::WriteMarker));
    let s3 = install_step(&ctx, s2, InstallEvent::Marked);
    assert!(matches!(s3, InstallStep::Done));
}

#[test]
fn transport_errors_report_download_failed() {
    let ctx = context(false);
    let url = "https://example.invalid/linux64".to_string();
    let next = install_step(
        &ctx,
        InstallStep::Download { url },
        InstallEvent::DownloadFailed,
    );
    assert!(matches!(
        next,
        InstallStep::Failed { error: FygError::DownloadFailed }
    ));
}

#[test]
fn corrupt_archives_report_extraction_failed() {
    let ctx = context(false);
    let next = install_step(
        &ctx,
        InstallStep::Extract { from_cache: true },
        InstallEvent::ExtractFailed,
    );
    assert!(matches!(
        next,
        InstallStep::Failed { error: FygError::ExtractionFailed }
    ));
}

#[test]
fn filesystem_errors_are_fatal() {
    let ctx = context(false);
    let next = install_step(
        &ctx,
        InstallStep::WriteMarker,
        InstallEvent::IoError,
    );
    assert!(matches!(next, InstallStep::Failed { error: FygError::Io }));
    let at_check = install_step(
        &ctx,
        InstallStep::CheckInstalled,
        InstallEvent::IoError,
    );
    assert!(matches!(
        at_check,
        InstallStep::Failed { error: FygError::Io }
    ));
}

#[test]
fn find_asset_index_picks_the_first_match() {
    let assets = vec![
        ReleaseAsset {
            name: "a.zip".to_string(),
            url: "u0".to_string(),
        },
        ReleaseAsset {
            name: "b.zip".to_string(),
            url: "u1".to_string(),
        },
        ReleaseAsset {
            name: "b.zip".to_string(),
            url: "u2".to_string(),
        },
    ];
    assert_eq!(find_asset_index(&assets, &"b.zip".to_string()), Some(1));
    assert_eq!(find_asset_index(&assets, &"c.zip".to_string()), None);
}

fn step_name(step: &InstallStep) -> &'static str {
    match step {
        InstallStep::CheckInstalled => "CheckInstalled",
        InstallStep::RemovePrevious => "RemovePrevious",
        InstallStep::CheckCache => "CheckCache",
        InstallStep::FetchRelease => "FetchRelease",
        InstallStep::Download { .. } => "Download",
        InstallStep::PersistCache => "PersistCache",
        InstallStep::Extract { .. } => "Extract",
        InstallStep::WriteMarker => "WriteMarker",
        InstallStep::Done => "Done",
        InstallStep::Failed { .. } => "Failed",
    }
}
