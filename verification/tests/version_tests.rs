use fyg::error::FygError;
use fyg::platform::Platform;
use fyg::version::{parse_version_dir_name, GodotVersion};

#[test]
fn parse_two_segments_defaults_patch() {
    let v = GodotVersion::new("4.2", false).unwrap();
    assert_eq!(v.major, 4);
    assert_eq!(v.minor, 2);
    assert_eq!(v.patch, 0);
    assert_eq!(v.pre_release, None);
    assert!(!v.mono);
    assert_eq!(v.get_full_version(), "4.2.0-stable");
}

#[test]
fn parse_three_segments_with_channel() {
    let v = GodotVersion::new("3.5.1-rc1", false).unwrap();
    assert_eq!(v.major, 3);
    assert_eq!(v.minor, 5);
    assert_eq!(v.patch, 1);
    assert_eq!(v.pre_release, Some("rc1".to_string()));
    assert_eq!(v.get_full_version(), "3.5.1-rc1");
}

#[test]
fn parse_empty_is_invalid_syntax() {
    assert_eq!(
        GodotVersion::new("", false).unwrap_err(),
        FygError::InvalidVersionSyntax
    );
}

#[test]
fn parse_single_segment_defaults_minor_and_patch() {
    let v = GodotVersion::new("4", false).unwrap();
    assert_eq!((v.major, v.minor, v.patch), (4, 0, 0));
    assert_eq!(v.get_full_version(), "4.0.0-stable");
}

#[test]
fn parse_rejects_bad_numeric_parts() {
    assert!(GodotVersion::new("a.b", false).is_err());
    assert!(GodotVersion::new("4.x", false).is_err());
    assert!(GodotVersion::new("1.2.3.4", false).is_err());
    assert!(GodotVersion::new(".", false).is_err());
    assert!(GodotVersion::new("4.", false).is_err());
    assert!(GodotVersion::new(".2", false).is_err());
    assert!(GodotVersion::new("-rc1", false).is_err());
}

#[test]
fn parse_normalizes_stable_and_empty_channel() {
    let explicit = GodotVersion::new("4.2-stable", false).unwrap();
    assert_eq!(explicit.pre_release, None);
    let trailing_dash = GodotVersion::new("4.2-", false).unwrap();
    assert_eq!(trailing_dash.pre_release, None);
    assert_eq!(explicit.get_full_version(), "4.2.0-stable");
}

#[test]
fn parse_channel_may_contain_dashes() {
    let v = GodotVersion::new("4.0-rc-2", false).unwrap();
    assert_eq!(v.pre_release, Some("rc-2".to_string()));
    assert_eq!(v.get_full_version(), "4.0.0-rc-2");
}

#[test]
fn parse_handles_u64_boundary() {
    let max = GodotVersion::new("18446744073709551615", false).unwrap();
    assert_eq!(max.major, u64::MAX);
    assert!(GodotVersion::new("18446744073709551616", false).is_err());
}

#[test]
fn parse_accepts_leading_zeros() {
    let v = GodotVersion::new("04.02", false).unwrap();
    assert_eq!((v.major, v.minor, v.patch), (4, 2, 0));
    assert_eq!(v.get_full_version(), "4.2.0-stable");
}

#[test]
fn canonical_text_round_trips() {
    for raw in ["4", "4.2", "3.5.1", "4.2-rc1", "1.0.0-beta2", "10.20.30", "2.1-alpha-3"] {
        let first = GodotVersion::new(raw, false).unwrap();
        let canonical = first.get_full_version();
        let second = GodotVersion::new(&canonical, false).unwrap();
        assert_eq!(second.get_full_version(), canonical);
        assert_eq!(second, first);
    }
}

#[test]
fn flavor_marker_in_directory_name() {
    let plain = GodotVersion::new("4.2", false).unwrap();
    assert_eq!(plain.get_full_version_with_flavor(), "4.2.0-stable");
    let mono = GodotVersion::new("4.2", true).unwrap();
    assert_eq!(mono.get_full_version_with_flavor(), "4.2.0-stable_mono");
}

#[test]
fn binary_names_use_the_modern_table_from_major_four() {
    let v = GodotVersion::new("4.2", false).unwrap();
    assert_eq!(
        v.get_binary_name(Platform::Windows32),
        "Godot_v4.2.0-stable_win32.exe"
    );
    assert_eq!(
        v.get_binary_name(Platform::Windows64),
        "Godot_v4.2.0-stable_win64.exe"
    );
    assert_eq!(
        v.get_binary_name(Platform::MacOS),
        "Godot_v4.2.0-stable_macos.universal"
    );
    assert_eq!(
        v.get_binary_name(Platform::Linux32),
        "Godot_v4.2.0-stable_linux.x86_32"
    );
    assert_eq!(
        v.get_binary_name(Platform::Linux64),
        "Godot_v4.2.0-stable_linux.x86_64"
    );
    assert_eq!(
        v.get_binary_name(Platform::Unsupported),
        "Godot_v4.2.0-stable_unsupported"
    );
}

#[test]
fn binary_names_use_the_legacy_table_before_major_four() {
    let v = GodotVersion::new("3.5.1", false).unwrap();
    assert_eq!(
        v.get_binary_name(Platform::MacOS),
        "Godot_v3.5.1-stable_osx.universal"
    );
    assert_eq!(
        v.get_binary_name(Platform::Linux32),
        "Godot_v3.5.1-stable_x11.32"
    );
    assert_eq!(
        v.get_binary_name(Platform::Linux64),
        "Godot_v3.5.1-stable_x11.64"
    );
    assert_eq!(
        v.get_binary_name(Platform::Windows64),
        "Godot_v3.5.1-stable_win64.exe"
    );
}

#[test]
fn modern_and_legacy_binary_suffixes_differ_where_documented() {
    for platform in [Platform::MacOS, Platform::Linux32, Platform::Linux64] {
        let modern = platform.binary_suffix(true);
        let legacy = platform.binary_suffix(false);
        assert_ne!(modern, legacy);
        let modern_zip = platform.zip_suffix(true);
        let legacy_zip = platform.zip_suffix(false);
        assert_ne!(modern_zip, legacy_zip);
    }
}

#[test]
fn zip_names_by_era() {
    let modern = GodotVersion::new("4.2", false).unwrap();
    assert_eq!(
        modern.get_zip_name(Platform::Linux64),
        "Godot_v4.2.0-stable_linux_x86_64.zip"
    );
    assert_eq!(
        modern.get_zip_name(Platform::Windows64),
        "Godot_v4.2.0-stable_win64.zip"
    );
    let legacy = GodotVersion::new("3.5.1", false).unwrap();
    assert_eq!(
        legacy.get_zip_name(Platform::Linux64),
        "Godot_v3.5.1-stable_x11_64.zip"
    );
    assert_eq!(
        legacy.get_zip_name(Platform::MacOS),
        "Godot_v3.5.1-stable_osx.universal.zip"
    );
}

#[test]
fn era_selection_goes_by_major_version_not_first_digit() {
    let fourteen = GodotVersion::new("14.0", false).unwrap();
    assert_eq!(
        fourteen.get_binary_name(Platform::Linux64),
        "Godot_v14.0.0-stable_linux.x86_64"
    );
}

#[test]
fn mono_flavor_is_part_of_binary_and_zip_names() {
    let v = GodotVersion::new("4.2", true).unwrap();
    assert_eq!(
        v.get_binary_name(Platform::Linux64),
        "Godot_v4.2.0-stable_mono_linux.x86_64"
    );
    assert_eq!(
        v.get_zip_name(Platform::Linux64),
        "Godot_v4.2.0-stable_mono_linux_x86_64.zip"
    );
}

#[test]
fn directory_names_reverse_parse() {
    let plain = parse_version_dir_name("4.2.0-stable").unwrap();
    assert!(!plain.mono);
    assert_eq!(plain.get_full_version_with_flavor(), "4.2.0-stable");

    let mono = parse_version_dir_name("4.2.0-stable_mono").unwrap();
    assert!(mono.mono);
    assert_eq!(mono.get_full_version_with_flavor(), "4.2.0-stable_mono");

    let channelled = parse_version_dir_name("3.5.1-rc1").unwrap();
    assert_eq!(channelled.pre_release, Some("rc1".to_string()));
    assert_eq!(channelled.get_full_version_with_flavor(), "3.5.1-rc1");
}

#[test]
fn unmanaged_directory_names_are_skipped() {
    assert!(parse_version_dir_name("random-junk").is_none());
    assert!(parse_version_dir_name("").is_none());
    assert!(parse_version_dir_name("_mono").is_none());
}

#[test]
fn display_text_shows_channel_and_flavor() {
    let plain = GodotVersion::new("4.2", false).unwrap();
    assert_eq!(plain.display_text(), "4.2.0");
    let channelled = GodotVersion::new("3.5.1-rc1", false).unwrap();
    assert_eq!(channelled.display_text(), "3.5.1-rc1");
    let mono = GodotVersion::new("4.2", true).unwrap();
    assert_eq!(mono.display_text(), "4.2.0 (Mono)");
}

#[test]
fn to_package_matches_the_legacy_table() {
    assert_eq!(Platform::Windows32.to_package(), "win32.exe");
    assert_eq!(Platform::Windows64.to_package(), "win64.exe");
    assert_eq!(Platform::MacOS.to_package(), "osx.universal");
    assert_eq!(Platform::Linux32.to_package(), "x11.32");
    assert_eq!(Platform::Linux64.to_package(), "x11.64");
    assert_eq!(Platform::Unsupported.to_package(), "unsupported");
}

#[test]
fn parse_zero_version() {
    let v = GodotVersion::new("0", false).unwrap();
    assert_eq!((v.major, v.minor, v.patch), (0, 0, 0));
    assert_eq!(v.get_full_version(), "0.0.0-stable");
}

#[test]
fn channel_normalization_is_case_sensitive() {
    let v = GodotVersion::new("4.2-STABLE", false).unwrap();
    assert_eq!(v.pre_release, Some("STABLE".to_string()));
    assert_eq!(v.get_full_version(), "4.2.0-STABLE");
}

#[test]
fn flavor_marker_is_a_suffix_of_the_directory_name() {
    let v = parse_version_dir_name("4.2.0-rc_mono").unwrap();
    assert!(v.mono);
    assert_eq!(v.pre_release, Some("rc".to_string()));
    assert_eq!(v.get_full_version_with_flavor(), "4.2.0-rc_mono");
}

#[test]
fn identity_equality_goes_by_canonical_text() {
    let from_short = GodotVersion::new("4.2", false).unwrap();
    let from_long = GodotVersion::new("4.2.0-stable", false).unwrap();
    assert!(from_short.same_identity(&from_long));

    let mono = GodotVersion::new("4.2", true).unwrap();
    assert!(!from_short.same_identity(&mono));

    let other_patch = GodotVersion::new("4.2.1", false).unwrap();
    assert!(!from_short.same_identity(&other_patch));

    let channelled = GodotVersion::new("4.2-rc1", false).unwrap();
    assert!(!from_short.same_identity(&channelled));
}

#[test]
fn error_descriptions_are_distinct() {
    let errors = [
        FygError::InvalidVersionSyntax,
        FygError::AlreadyInstalled,
        FygError::VersionNotFound,
        FygError::UnsupportedPlatform,
        FygError::DownloadFailed,
        FygError::ExtractionFailed,
        FygError::NotInstalled,
        FygError::Io,
    ];
    for (i, a) in errors.iter().enumerate() {
        for (j, b) in errors.iter().enumerate() {
            if i != j {
                assert_ne!(a.describe(), b.describe());
            }
        }
    }
    assert_eq!(
        FygError::InvalidVersionSyntax.describe(),
        "invalid version syntax"
    );
}
