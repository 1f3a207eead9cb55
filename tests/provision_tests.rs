use launcher_core::provision::{
    clone_arguments, clone_outcome, install_arguments, install_outcome, tool_found, CloneError,
    CommandReport, InstallError, Tool,
};
use launcher_core::runner::launch_arguments;

fn report(success: bool, stderr: &str) -> CommandReport {
    CommandReport { success, stderr: stderr.to_string() }
}

#[test]
fn lookup_error_means_not_available() {
    assert!(tool_found(Some(true)));
    assert!(!tool_found(Some(false)));
    assert!(!tool_found(None));
}

#[test]
fn tool_programs_and_packages() {
    assert_eq!(Tool::Git.program(), "git");
    assert_eq!(Tool::Node.program(), "node");
    assert_eq!(Tool::Npm.program(), "npm");
    assert_eq!(Tool::Git.package(), Some("Git.Git"));
    assert_eq!(Tool::Node.package(), Some("OpenJS.NodeJS"));
    assert_eq!(Tool::Npm.package(), None);
}

#[test]
fn install_without_package_manager() {
    let e = install_outcome("Git.Git", None).unwrap_err();
    assert!(matches!(e, InstallError::ManagerUnavailable));
    assert_eq!(e.message(), "Winget is not available. Please install it from the Microsoft Store.");
}

#[test]
fn install_that_cannot_launch() {
    let e = install_outcome("Git.Git", Some(Err("denied".to_string()))).unwrap_err();
    assert!(matches!(e, InstallError::LaunchFailed(ref m) if m == "denied"));
    assert_eq!(e.message(), "denied");
}

#[test]
fn install_that_fails_carries_diagnostics() {
    let e = install_outcome("OpenJS.NodeJS", Some(Ok(report(false, "no source")))).unwrap_err();
    assert_eq!(e.message(), "Failed to install OpenJS.NodeJS: no source");
}

#[test]
fn install_that_succeeds() {
    assert!(install_outcome("Git.Git", Some(Ok(report(true, "warning")))).is_ok());
}

#[test]
fn install_arguments_are_unattended() {
    assert_eq!(
        install_arguments("Git.Git"),
        vec![
            "install",
            "Git.Git",
            "--accept-source-agreements",
            "--accept-package-agreements",
            "-h"
        ]
    );
}

#[test]
fn clone_arguments_name_branch_source_and_destination() {
    assert_eq!(
        clone_arguments("/data/node-app"),
        vec![
            "clone",
            "-b",
            "desktop-app",
            "https://github.com/Vinamra7/mindcraft.git",
            "/data/node-app"
        ]
    );
}

#[test]
fn clone_outcomes() {
    assert!(clone_outcome(Ok(report(true, ""))).is_ok());
    let e = clone_outcome(Ok(report(false, "fatal: exists"))).unwrap_err();
    assert!(matches!(e, CloneError::Failed(_)));
    assert_eq!(e.message(), "Failed to clone repository: fatal: exists");
    let e = clone_outcome(Err("git missing".to_string())).unwrap_err();
    assert_eq!(e.message(), "git missing");
}

#[test]
fn launch_arguments_prefix_entry_script() {
    let args = vec!["--port".to_string(), "8080".to_string()];
    assert_eq!(launch_arguments(&args), vec!["main.js", "--port", "8080"]);
    assert_eq!(launch_arguments(&Vec::new()), vec!["main.js"]);
}
