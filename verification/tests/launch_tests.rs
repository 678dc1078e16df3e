use fyg::dirs::FygDirs;
use fyg::error::FygError;
use fyg::launch::{edit_plan, launch_plan};
use fyg::platform::Platform;
use fyg::version::GodotVersion;

fn linux_dirs() -> FygDirs {
    FygDirs::new("/data", "/cache", Platform::Linux64)
}

#[test]
fn launching_an_installed_version_spawns_the_project_manager() {
    let dirs = linux_dirs();
    let v = GodotVersion::new("4.2", false).unwrap();
    let plan = launch_plan(&dirs, &v, true).unwrap();
    assert_eq!(
        plan.binary_path,
        "/data/find-your-godot/engines/4.2.0-stable/Godot_v4.2.0-stable_linux.x86_64"
    );
    assert_eq!(plan.args, vec!["--project-manager".to_string()]);
}

#[test]
fn launching_a_missing_version_reports_not_installed() {
    let dirs = linux_dirs();
    let v = GodotVersion::new("4.2", false).unwrap();
    assert_eq!(
        launch_plan(&dirs, &v, false).unwrap_err(),
        FygError::NotInstalled
    );
}

#[test]
fn editing_passes_the_project_file_to_the_editor() {
    let dirs = linux_dirs();
    let v = GodotVersion::new("3.5.1", false).unwrap();
    let plan = edit_plan(&dirs, &v, true, "/work/game/project.godot").unwrap();
    assert_eq!(
        plan.binary_path,
        "/data/find-your-godot/engines/3.5.1-stable/Godot_v3.5.1-stable_x11.64"
    );
    assert_eq!(
        plan.args,
        vec!["--editor".to_string(), "/work/game/project.godot".to_string()]
    );
}

#[test]
fn editing_with_a_missing_version_reports_not_installed() {
    let dirs = linux_dirs();
    let v = GodotVersion::new("3.5.1", false).unwrap();
    assert_eq!(
        edit_plan(&dirs, &v, false, "/work/game/project.godot").unwrap_err(),
        FygError::NotInstalled
    );
}
