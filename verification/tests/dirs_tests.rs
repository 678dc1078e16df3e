use fyg::dirs::FygDirs;
use fyg::platform::Platform;
use fyg::version::GodotVersion;

#[test]
fn layout_under_the_injected_roots() {
    let dirs = FygDirs::new("/data", "/cache", Platform::Linux64);
    assert!(dirs.is_valid());
    assert_eq!(dirs.engines_data(), "/data/find-your-godot/engines");
    assert_eq!(dirs.engines_cache(), "/cache/find-your-godot/engines");
}

#[test]
fn windows_hosts_get_an_extra_cache_level() {
    let dirs = FygDirs::new("/data", "/cache", Platform::Windows64);
    assert_eq!(
        dirs.engines_cache(),
        "/cache/find-your-godot/cache/engines"
    );
    assert_eq!(dirs.engines_data(), "/data/find-your-godot/engines");
    let dirs32 = FygDirs::new("/data", "/cache", Platform::Windows32);
    assert_eq!(
        dirs32.engines_cache(),
        "/cache/find-your-godot/cache/engines"
    );
}

#[test]
fn unresolved_roots_make_an_invalid_layout() {
    let no_data = FygDirs::new("", "/cache", Platform::Linux64);
    assert!(!no_data.is_valid());
    assert_eq!(no_data.engines_data(), "");
    assert_eq!(no_data.engines_cache(), "");
    let no_cache = FygDirs::new("/data", "", Platform::Linux64);
    assert!(!no_cache.is_valid());
}

#[test]
fn per_version_paths_follow_the_naming_scheme() {
    let dirs = FygDirs::new("/data", "/cache", Platform::Linux64);
    let v = GodotVersion::new("4.2", false).unwrap();
    assert_eq!(
        dirs.get_install_dir(&v),
        "/data/find-your-godot/engines/4.2.0-stable"
    );
    assert_eq!(
        dirs.get_binary_path(&v),
        "/data/find-your-godot/engines/4.2.0-stable/Godot_v4.2.0-stable_linux.x86_64"
    );
    assert_eq!(
        dirs.get_version_cache_dir(&v),
        "/cache/find-your-godot/engines/4.2.0-stable"
    );
    assert_eq!(
        dirs.get_cached_zip_path(&v),
        "/cache/find-your-godot/engines/4.2.0-stable/Godot_v4.2.0-stable_linux_x86_64.zip"
    );
}

#[test]
fn mono_versions_live_in_their_own_directories() {
    let dirs = FygDirs::new("/data", "/cache", Platform::Linux64);
    let v = GodotVersion::new("4.2", true).unwrap();
    assert_eq!(
        dirs.get_install_dir(&v),
        "/data/find-your-godot/engines/4.2.0-stable_mono"
    );
    assert_eq!(
        dirs.get_cached_zip_path(&v),
        "/cache/find-your-godot/engines/4.2.0-stable_mono/Godot_v4.2.0-stable_mono_linux_x86_64.zip"
    );
}

#[test]
fn host_platform_is_kept() {
    let dirs = FygDirs::new("/data", "/cache", Platform::MacOS);
    assert_eq!(dirs.host_platform(), Platform::MacOS);
}
