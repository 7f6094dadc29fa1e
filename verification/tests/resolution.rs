//! Scenario tests of the binary resolver: each drives the state machine with
//! hand-made host outcomes and checks the phases, actions and cache contents.

use dbml_extension::{Action, CommandOutput, DbmlExtension, Event, InstallationStatus, Os, Phase, ResolveError};

fn output(status: i32, stdout: &str, stderr: &str) -> CommandOutput {
    CommandOutput {
        status: Some(status),
        stdout: stdout.to_string(),
        stderr: stderr.to_string(),
    }
}

fn command_done(status: i32, stdout: &str, stderr: &str) -> Event {
    Event::CommandDone(Some(output(status, stdout, stderr)))
}

fn no_run_commands(actions: &[Action]) {
    for a in actions {
        assert!(!matches!(a, Action::RunCommand(_, _)));
    }
}

#[test]
fn new_resolver_has_empty_cache() {
    let ext = DbmlExtension::new();
    assert!(ext.cached_binary_path.is_none());
}

#[test]
fn cached_hit_returns_same_path_without_commands() {
    let mut ext = DbmlExtension {
        cached_binary_path: Some("/home/u/.npm/bin/dbml-language-server".to_string()),
    };
    let (phase, actions) = ext.start_resolution();
    no_run_commands(&actions);
    assert_eq!(actions.len(), 1);
    match &actions[0] {
        Action::CheckFile(p) => assert_eq!(p, "/home/u/.npm/bin/dbml-language-server"),
        _ => panic!("expected a file check of the cached path"),
    }
    let (phase, actions) = ext.step(Os::Posix, phase, Event::FileChecked(true));
    no_run_commands(&actions);
    assert!(actions.is_empty());
    match phase {
        Phase::Done(p) => assert_eq!(p, "/home/u/.npm/bin/dbml-language-server"),
        _ => panic!("expected resolution to finish on the cached path"),
    }
    assert_eq!(
        ext.cached_binary_path.as_deref(),
        Some("/home/u/.npm/bin/dbml-language-server")
    );
}

#[test]
fn deleted_cached_path_forces_full_reresolution() {
    let mut ext = DbmlExtension {
        cached_binary_path: Some("/home/u/.npm/bin/dbml-language-server".to_string()),
    };
    let (phase, _) = ext.start_resolution();
    let (phase, actions) = ext.step(Os::Posix, phase, Event::FileChecked(false));
    assert!(ext.cached_binary_path.is_none());
    assert!(matches!(phase, Phase::ProbingRuntime));
    assert_eq!(actions.len(), 1);
    match &actions[0] {
        Action::RunCommand(program, args) => {
            assert_eq!(program, "node");
            assert_eq!(args, &vec!["--version".to_string()]);
        },
        _ => panic!("expected the runtime probe"),
    }
}

#[test]
fn missing_toolchain_fails_without_install() {
    let mut ext = DbmlExtension::new();
    let (phase, _) = ext.start_resolution();
    assert!(matches!(phase, Phase::ProbingRuntime));
    let (phase, actions) = ext.step(Os::Posix, phase, Event::CommandDone(None));
    match &phase {
        Phase::Failed(ResolveError::ToolchainMissing) => {},
        _ => panic!("expected ToolchainMissing"),
    }
    no_run_commands(&actions);
    assert_eq!(actions.len(), 1);
    match &actions[0] {
        Action::Report(InstallationStatus::Failed(msg)) => {
            assert!(msg.contains("Node.js"));
        },
        _ => panic!("expected a Failed status report"),
    }
}

#[test]
fn failed_manager_probe_also_reports_toolchain_missing() {
    let mut ext = DbmlExtension::new();
    let (phase, _) = ext.start_resolution();
    let (phase, _) = ext.step(Os::Posix, phase, command_done(0, "v22.1.0\n", ""));
    assert!(matches!(phase, Phase::ProbingManager));
    let (phase, actions) = ext.step(Os::Posix, phase, command_done(127, "", "npm: not found"));
    assert!(matches!(phase, Phase::Failed(ResolveError::ToolchainMissing)));
    no_run_commands(&actions);
}

#[test]
fn installed_package_skips_install() {
    let mut ext = DbmlExtension::new();
    let (phase, _) = ext.start_resolution();
    let (phase, _) = ext.step(Os::Posix, phase, command_done(0, "v22.1.0\n", ""));
    let (phase, actions) = ext.step(Os::Posix, phase, command_done(0, "10.5.0\n", ""));
    assert!(matches!(phase, Phase::CheckingInstalled));
    assert_eq!(actions.len(), 2);
    assert!(matches!(
        actions[0],
        Action::Report(InstallationStatus::CheckingForUpdate)
    ));
    let (phase, actions) = ext.step(
        Os::Posix,
        phase,
        command_done(0, "/usr/local/lib\n+-- dbml-language-server@0.1.0\n", ""),
    );
    assert!(matches!(phase, Phase::LookingUpRoot));
    assert_eq!(actions.len(), 1);
    match &actions[0] {
        Action::RunCommand(program, args) => {
            assert_eq!(program, "npm");
            assert_eq!(args, &vec!["root".to_string(), "-g".to_string()]);
        },
        _ => panic!("expected the global-root query, not an install"),
    }
}

#[test]
fn missing_package_is_installed_with_pinned_version() {
    let mut ext = DbmlExtension::new();
    let (phase, _) = ext.start_resolution();
    let (phase, _) = ext.step(Os::Posix, phase, command_done(0, "v22.1.0\n", ""));
    let (phase, _) = ext.step(Os::Posix, phase, command_done(0, "10.5.0\n", ""));
    let (phase, actions) = ext.step(Os::Posix, phase, command_done(1, "", "missing"));
    assert!(matches!(phase, Phase::Installing));
    assert_eq!(actions.len(), 2);
    assert!(matches!(
        actions[0],
        Action::Report(InstallationStatus::Downloading)
    ));
    match &actions[1] {
        Action::RunCommand(program, args) => {
            assert_eq!(program, "npm");
            assert_eq!(
                args,
                &vec![
                    "install".to_string(),
                    "-g".to_string(),
                    "dbml-language-server@0.1.0".to_string(),
                ]
            );
        },
        _ => panic!("expected the install command"),
    }
}

#[test]
fn install_failure_reports_disk_full() {
    let mut ext = DbmlExtension::new();
    let (phase, actions) = ext.step(
        Os::Posix,
        Phase::Installing,
        command_done(1, "", "disk full"),
    );
    match &phase {
        Phase::Failed(ResolveError::InstallFailed(msg)) => {
            assert!(msg.contains("disk full"));
            assert!(msg.contains("Failed to install dbml-language-server"));
        },
        _ => panic!("expected InstallFailed"),
    }
    assert_eq!(actions.len(), 1);
    match &actions[0] {
        Action::Report(InstallationStatus::Failed(msg)) => {
            assert!(msg.contains("disk full"));
        },
        _ => panic!("expected a Failed status report"),
    }
}

#[test]
fn successful_install_reports_downloaded() {
    let mut ext = DbmlExtension::new();
    let (phase, actions) = ext.step(Os::Posix, Phase::Installing, command_done(0, "added 1 package\n", ""));
    assert!(matches!(phase, Phase::LookingUpRoot));
    assert_eq!(actions.len(), 2);
    assert!(matches!(
        actions[0],
        Action::Report(InstallationStatus::Downloaded)
    ));
}

#[test]
fn install_launch_failure_is_install_failed() {
    let mut ext = DbmlExtension::new();
    let (phase, _) = ext.step(Os::Posix, Phase::Installing, Event::CommandDone(None));
    match phase {
        Phase::Failed(ResolveError::InstallFailed(msg)) => {
            assert!(msg.contains("Failed to run npm install"));
        },
        _ => panic!("expected InstallFailed"),
    }
}

#[test]
fn list_launch_failure_is_package_list_failed() {
    let mut ext = DbmlExtension::new();
    let (phase, _) = ext.step(Os::Posix, Phase::CheckingInstalled, Event::CommandDone(None));
    assert!(matches!(phase, Phase::Failed(ResolveError::PackageListFailed)));
}

#[test]
fn failed_root_query_is_global_root_lookup_failed() {
    let mut ext = DbmlExtension::new();
    let (phase, _) = ext.step(Os::Posix, Phase::LookingUpRoot, command_done(1, "", "oops"));
    assert!(matches!(
        phase,
        Phase::Failed(ResolveError::GlobalRootLookupFailed)
    ));
}

#[test]
fn empty_root_output_is_global_root_lookup_failed() {
    let mut ext = DbmlExtension::new();
    let (phase, _) = ext.step(Os::Posix, Phase::LookingUpRoot, command_done(0, " \n ", ""));
    assert!(matches!(
        phase,
        Phase::Failed(ResolveError::GlobalRootLookupFailed)
    ));
}

#[test]
fn primary_path_under_global_root_wins_without_lookup() {
    let mut ext = DbmlExtension::new();
    let (phase, actions) = ext.step(
        Os::Posix,
        Phase::LookingUpRoot,
        command_done(0, "/usr/local/lib\n", ""),
    );
    no_run_commands(&actions);
    match &phase {
        Phase::CheckingPrimary(root) => assert_eq!(root, "/usr/local/lib"),
        _ => panic!("expected the primary candidate check"),
    }
    assert_eq!(actions.len(), 1);
    match &actions[0] {
        Action::CheckFile(p) => assert_eq!(
            p,
            "/usr/local/lib/dbml-language-server/bin/dbml-language-server"
        ),
        _ => panic!("expected a file check of the primary candidate"),
    }
    let (phase, actions) = ext.step(Os::Posix, phase, Event::FileChecked(true));
    no_run_commands(&actions);
    match phase {
        Phase::Done(p) => assert_eq!(
            p,
            "/usr/local/lib/dbml-language-server/bin/dbml-language-server"
        ),
        _ => panic!("expected resolution to finish on the primary candidate"),
    }
    assert_eq!(
        ext.cached_binary_path.as_deref(),
        Some("/usr/local/lib/dbml-language-server/bin/dbml-language-server")
    );
    assert_eq!(actions.len(), 1);
    assert!(matches!(
        actions[0],
        Action::Report(InstallationStatus::Cleared)
    ));
}

#[test]
fn alternate_path_is_tried_after_primary() {
    let mut ext = DbmlExtension::new();
    let (phase, _) = ext.step(
        Os::Posix,
        Phase::LookingUpRoot,
        command_done(0, "/usr/local/lib\n", ""),
    );
    let (phase, actions) = ext.step(Os::Posix, phase, Event::FileChecked(false));
    match &phase {
        Phase::CheckingAlternate(root) => assert_eq!(root, "/usr/local/lib"),
        _ => panic!("expected the alternate candidate check"),
    }
    assert_eq!(actions.len(), 1);
    match &actions[0] {
        Action::CheckFile(p) => {
            assert_eq!(p, "/usr/local/lib/.bin/dbml-language-server")
        },
        _ => panic!("expected a file check of the alternate candidate"),
    }
    let (phase, _) = ext.step(Os::Posix, phase, Event::FileChecked(true));
    match phase {
        Phase::Done(p) => assert_eq!(p, "/usr/local/lib/.bin/dbml-language-server"),
        _ => panic!("expected resolution to finish on the alternate candidate"),
    }
}

#[test]
fn lookup_uses_first_line_only_and_verifies_it() {
    let mut ext = DbmlExtension::new();
    let (phase, actions) = ext.step(
        Os::Posix,
        Phase::CheckingAlternate("/usr/local/lib".to_string()),
        Event::FileChecked(false),
    );
    assert!(matches!(phase, Phase::RunningLookup));
    assert_eq!(actions.len(), 1);
    match &actions[0] {
        Action::RunCommand(program, args) => {
            assert_eq!(program, "which");
            assert_eq!(args, &vec!["dbml-language-server".to_string()]);
        },
        _ => panic!("expected the lookup utility"),
    }
    let (phase, actions) = ext.step(
        Os::Posix,
        phase,
        command_done(0, "/usr/bin/dbml-language-server\n/opt/bin/dbml-language-server\n", ""),
    );
    match &phase {
        Phase::VerifyingLookup(candidate) => {
            assert_eq!(candidate, "/usr/bin/dbml-language-server")
        },
        _ => panic!("expected the first lookup line as candidate"),
    }
    assert_eq!(actions.len(), 1);
    match &actions[0] {
        Action::CheckFile(p) => assert_eq!(p, "/usr/bin/dbml-language-server"),
        _ => panic!("expected a file check before the candidate is returned"),
    }
    let (phase, _) = ext.step(Os::Posix, phase, Event::FileChecked(true));
    match phase {
        Phase::Done(p) => assert_eq!(p, "/usr/bin/dbml-language-server"),
        _ => panic!("expected resolution to finish on the verified candidate"),
    }
}

#[test]
fn missing_lookup_candidate_is_binary_not_found() {
    let mut ext = DbmlExtension::new();
    let (phase, _) = ext.step(Os::Posix, Phase::RunningLookup, command_done(1, "", ""));
    assert!(matches!(phase, Phase::Failed(ResolveError::BinaryNotFound)));
    let (phase, _) = ext.step(
        Os::Posix,
        Phase::VerifyingLookup("/usr/bin/dbml-language-server".to_string()),
        Event::FileChecked(false),
    );
    match phase {
        Phase::Failed(ResolveError::BinaryNotFound) => {},
        _ => panic!("expected BinaryNotFound for a vanished candidate"),
    }
}

#[test]
fn windows_lookup_uses_where_and_exe_name() {
    let mut ext = DbmlExtension::new();
    let (_, actions) = ext.step(
        Os::Windows,
        Phase::CheckingAlternate("C:/npm".to_string()),
        Event::FileChecked(false),
    );
    match &actions[0] {
        Action::RunCommand(program, args) => {
            assert_eq!(program, "where");
            assert_eq!(args, &vec!["dbml-language-server.exe".to_string()]);
        },
        _ => panic!("expected the Windows lookup utility"),
    }
}

#[test]
fn full_install_flow_resolves_and_caches() {
    let mut ext = DbmlExtension::new();
    let (phase, _) = ext.start_resolution();
    let (phase, _) = ext.step(Os::Posix, phase, command_done(0, "v22.1.0\n", ""));
    let (phase, _) = ext.step(Os::Posix, phase, command_done(0, "10.5.0\n", ""));
    let (phase, _) = ext.step(Os::Posix, phase, command_done(1, "", "not installed"));
    let (phase, _) = ext.step(Os::Posix, phase, command_done(0, "", ""));
    let (phase, _) = ext.step(Os::Posix, phase, command_done(0, "/g/root\n", ""));
    let (phase, _) = ext.step(Os::Posix, phase, Event::FileChecked(true));
    match phase {
        Phase::Done(p) => {
            assert_eq!(p, "/g/root/dbml-language-server/bin/dbml-language-server")
        },
        _ => panic!("expected a resolved binary after the install flow"),
    }
    assert_eq!(
        ext.cached_binary_path.as_deref(),
        Some("/g/root/dbml-language-server/bin/dbml-language-server")
    );
}

#[test]
fn get_binary_name_follows_platform() {
    let ext = DbmlExtension::new();
    assert_eq!(ext.get_binary_name(Os::Posix), "dbml-language-server");
    assert_eq!(ext.get_binary_name(Os::Windows), "dbml-language-server.exe");
}

#[test]
fn launch_spec_has_bare_command() {
    let ext = DbmlExtension::new();
    let spec = ext.language_server_command("/usr/bin/dbml-language-server".to_string());
    assert_eq!(spec.command, "/usr/bin/dbml-language-server");
    assert!(spec.args.is_empty());
    assert!(spec.env.is_empty());
}

#[test]
fn error_messages_name_their_cause() {
    assert!(ResolveError::ToolchainMissing.message().contains("Node.js"));
    assert!(ResolveError::PackageListFailed.message().contains("installed packages"));
    assert!(ResolveError::GlobalRootLookupFailed.message().contains("global root"));
    assert!(ResolveError::BinaryNotFound.message().contains("manually"));
    assert_eq!(
        ResolveError::InstallFailed("boom".to_string()).message(),
        "boom"
    );
}
