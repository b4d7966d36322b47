use launcher_core::app_data::AppCaps;
use launcher_core::app_data::Application;
use launcher_core::archive::parent_dir_of;
use launcher_core::errors::AppDataError;
use launcher_core::errors::AppProcessError;

fn caps(enabled: bool, path: Option<&str>, exe: Option<&str>, source: Option<&str>) -> AppCaps {
    AppCaps {
        enabled,
        path: path.map(|s| s.to_string()),
        executable_name: exe.map(|s| s.to_string()),
        download_source: source.map(|s| s.to_string()),
    }
}

#[test]
fn download_condition_is_the_exact_conjunction() {
    let url = Some("https://example.com/tool.zip");
    let base = caps(true, Some("packages/tool"), Some("tool.exe"), url);
    assert!(base.can_download_given(false));

    // Flipping any one of the three parts denies the download.
    let disabled = caps(false, Some("packages/tool"), Some("tool.exe"), url);
    assert!(!disabled.can_download_given(false));
    let sourceless = caps(true, Some("packages/tool"), Some("tool.exe"), None);
    assert!(!sourceless.can_download_given(false));
    assert!(!base.can_download_given(true));
}

#[test]
fn download_when_not_permitted_is_refused_without_any_transfer() {
    let disabled = caps(false, Some("packages/tool"), Some("tool.exe"), Some("https://example.com/t.zip"));
    let plan = disabled.prepare_download_given(false);
    assert!(matches!(plan, Err(AppDataError::DownloadDisabled)));

    let sourceless = caps(true, Some("packages/tool"), Some("tool.exe"), None);
    let plan = sourceless.prepare_download_given(false);
    assert!(matches!(plan, Err(AppDataError::DownloadDisabled)));
}

#[test]
fn download_without_install_directory_reports_path_not_found() {
    let pathless = caps(true, None, Some("tool.exe"), Some("https://example.com/t.zip"));
    let plan = pathless.prepare_download_given(false);
    assert!(matches!(plan, Err(AppDataError::PathNotFound)));
}

#[test]
fn download_plan_names_a_fresh_archive_inside_the_install_directory() {
    let ready = caps(true, Some("packages/tool"), Some("tool.exe"), Some("https://example.com/t.zip"));
    let plan = ready.prepare_download_given(false).unwrap();
    assert_eq!(plan.url, "https://example.com/t.zip");
    assert_eq!(plan.directory, "packages/tool");
    assert_eq!(plan.archive_name.len(), 40);
    assert!(plan.archive_name.ends_with(".zip"));
    let destination = plan.destination();
    assert!(destination.starts_with("packages/tool/"));
    assert!(destination.ends_with(".zip"));

    // A second plan for the same tool names a different archive, so two
    // concurrent downloads cannot collide.
    let second = ready.prepare_download_given(false).unwrap();
    assert_ne!(plan.archive_name, second.archive_name);
}

#[test]
fn completing_a_download_settles_the_plan() {
    let ready = caps(true, Some("packages/tool"), Some("tool.exe"), Some("https://example.com/t.zip"));
    let plan = ready.prepare_download_given(false).unwrap();
    let fetched = plan.complete(true).unwrap();
    assert_eq!(fetched, plan.destination());
    assert!(matches!(plan.complete(false), Err(AppDataError::DownloadFailed)));
}

#[test]
fn download_against_the_disk_is_pinned_where_fields_decide() {
    // No install directory configured: nothing can be present, so the
    // condition holds, but no destination can be named.
    let pathless = caps(true, None, Some("tool.exe"), Some("https://example.com/t.zip"));
    assert!(matches!(pathless.prepare_download(), Err(AppDataError::PathNotFound)));

    // A blank configured path counts as absent without asking the disk,
    // so the plan is owed.
    let blank = caps(true, Some("   "), Some("tool.exe"), Some("https://example.com/t.zip"));
    let plan = blank.prepare_download().unwrap();
    assert_eq!(plan.url, "https://example.com/t.zip");
    assert_eq!(plan.directory, "   ");

    // Disabled or sourceless: refused outright.
    let disabled = caps(false, Some("p"), Some("e"), Some("u"));
    assert!(matches!(disabled.prepare_download(), Err(AppDataError::DownloadDisabled)));
    let sourceless = caps(true, Some("p"), Some("e"), None);
    assert!(matches!(sourceless.prepare_download(), Err(AppDataError::DownloadDisabled)));
}

#[test]
fn planned_archive_unpacks_inside_the_install_directory() {
    let ready = caps(true, Some("packages/tool"), Some("tool.exe"), Some("https://example.com/t.zip"));
    let plan = ready.prepare_download_given(false).unwrap();
    // The fresh archive name holds no separator, so the archive lies
    // directly inside the install directory and unpacking beside it
    // unpacks into that directory.
    assert!(!plan.archive_name.contains('/'));
    assert!(!plan.archive_name.contains('\\'));
    assert_eq!(parent_dir_of(&plan.destination()), plan.directory);
}

#[test]
fn existing_install_is_never_redownloaded() {
    // Even with a valid source configured, a present install directory
    // denies the download: a second run does not fetch again.
    let installed = caps(true, Some("packages/tool"), Some("tool.exe"), Some("https://example.com/t.zip"));
    assert!(!installed.can_download_given(true));
    assert!(matches!(
        installed.prepare_download_given(true),
        Err(AppDataError::DownloadDisabled)
    ));
}

#[test]
fn disabled_descriptor_never_spawns() {
    let disabled = caps(false, Some("packages/tool"), Some("tool.exe"), None);
    let r = disabled.try_spawn_process();
    assert!(matches!(r, Err(AppProcessError::AppNotFound)));
}

#[test]
fn absent_executable_never_spawns() {
    // Enabled, but the derived executable does not exist on this machine.
    let enabled = caps(
        true,
        Some("launcher-test-no-such-directory"),
        Some("launcher-test-no-such-tool.exe"),
        None,
    );
    let r = enabled.try_spawn_process();
    assert!(matches!(r, Err(AppProcessError::AppNotFound)));
}

#[test]
fn executable_path_joins_the_two_fields() {
    let c = caps(true, Some("packages/tool"), Some("nested/tool.exe"), None);
    assert_eq!(c.get_executable_path().unwrap(), "packages/tool/nested/tool.exe");

    let slashed = caps(true, Some("packages/tool/"), Some("tool.exe"), None);
    assert_eq!(slashed.get_executable_path().unwrap(), "packages/tool/tool.exe");
}

#[test]
fn executable_path_reports_the_missing_field() {
    let no_path = caps(true, None, Some("tool.exe"), None);
    assert!(matches!(no_path.get_executable_path(), Err(AppDataError::PathNotFound)));
    let no_exe = caps(true, Some("packages/tool"), None, None);
    assert!(matches!(
        no_exe.get_executable_path(),
        Err(AppDataError::ExecutableNameNotFound)
    ));
}

#[test]
fn blank_path_counts_as_absent() {
    let blank = caps(true, Some("   "), Some("tool.exe"), None);
    assert!(!blank.path_exists());
    let missing = caps(true, None, Some("tool.exe"), None);
    assert!(!missing.path_exists());

    // With a source configured, a blank path therefore leaves the
    // download permitted, without the disk being asked.
    let blank_with_source = caps(true, Some("   "), Some("tool.exe"), Some("u"));
    assert!(blank_with_source.can_download());
}

#[test]
fn capabilities_snapshot_carries_the_four_fields() {
    let c = caps(true, Some("p"), Some("e"), Some("u"));
    let snap = c.capabilities();
    assert!(snap.enabled);
    assert_eq!(snap.path.as_deref(), Some("p"));
    assert_eq!(snap.executable_name.as_deref(), Some("e"));
    assert_eq!(snap.download_source.as_deref(), Some("u"));
}

#[test]
fn data_error_messages() {
    assert_eq!(AppDataError::PathNotFound.message(), "Path not found.");
    assert_eq!(AppDataError::ExecutableNameNotFound.message(), "Executable name not found.");
    assert_eq!(AppDataError::DownloadDisabled.message(), "Download for this app is disabled.");
    assert_eq!(AppDataError::DownloadFailed.message(), "Download failed.");
    assert_eq!(AppDataError::DownloadUrlNotFound.message(), "Download URL not found.");
}

#[test]
fn process_error_messages() {
    assert_eq!(
        AppProcessError::AppWaitError.message(),
        "Failed to wait for application to close"
    );
    assert_eq!(
        AppProcessError::AppLaunchError("boom".to_string()).message(),
        "Failed to launch application: boom"
    );
    assert_eq!(AppProcessError::AppNotFound.message(), "Application not found");
}
