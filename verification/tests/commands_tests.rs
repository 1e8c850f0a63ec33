use sidecar_supervisor::commands::{downloads_path, folder_open_command, plan_save, DialogOutcome, Platform};
use sidecar_supervisor::environment::{
    should_auto_start, sidecar_binary_name, sidecar_port_flag, sidecar_resource_subdir, Mode,
    AUTO_START_DELAY_MS, DEVELOPMENT_PORT, PORT_AUTO_ASSIGN,
};
use sidecar_supervisor::errors::{OpenFolderError, SaveError};

#[test]
fn cancelled_dialog_fails_and_writes_nothing() {
    // Saving "report.csv": the user cancels the dialog, so the plan yields
    // no path to write to.
    let r = plan_save(DialogOutcome::Cancelled);
    assert!(matches!(r, Err(SaveError::Cancelled)));
}

#[test]
fn selected_path_is_the_write_target_and_confirmation() {
    let r = plan_save(DialogOutcome::Selected("/tmp/report.csv".to_string()));
    assert_eq!(r.unwrap(), "/tmp/report.csv");
}

#[test]
fn non_local_location_is_unsupported() {
    let r = plan_save(DialogOutcome::RemoteUrl);
    assert!(matches!(r, Err(SaveError::UnsupportedPath)));
}

#[test]
fn save_error_messages() {
    assert_eq!(SaveError::Cancelled.message(), "Save cancelled");
    assert_eq!(SaveError::UnsupportedPath.message(), "URL paths not supported");
    assert_eq!(
        SaveError::Write("disk full".to_string()).message(),
        "Failed to save file: disk full"
    );
    assert_eq!(
        OpenFolderError::Launch("spawn failed".to_string()).message(),
        "Failed to open Downloads: spawn failed"
    );
}

#[test]
fn downloads_path_per_platform() {
    assert_eq!(downloads_path("/home/user", Platform::Linux), "/home/user/Downloads");
    assert_eq!(downloads_path("/Users/u", Platform::MacOs), "/Users/u/Downloads");
    assert_eq!(
        downloads_path("C:\\Users\\u", Platform::Windows),
        "C:\\Users\\u\\Downloads"
    );
}

#[test]
fn folder_open_command_per_platform() {
    assert_eq!(folder_open_command(Platform::MacOs), "open");
    assert_eq!(folder_open_command(Platform::Linux), "xdg-open");
    assert_eq!(folder_open_command(Platform::Windows), "explorer");
}

#[test]
fn auto_start_only_in_production() {
    assert!(should_auto_start(Mode::Production));
    assert!(!should_auto_start(Mode::Development));
}

#[test]
fn launch_conventions() {
    assert_eq!(DEVELOPMENT_PORT, 8080);
    assert_eq!(AUTO_START_DELAY_MS, 500);
    assert_eq!(PORT_AUTO_ASSIGN, 0);
    assert_eq!(sidecar_resource_subdir(), "binaries");
    assert_eq!(sidecar_binary_name(), "cribl-hc-backend");
    assert_eq!(sidecar_port_flag(), "--port");
}
