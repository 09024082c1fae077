use artifact_relay::config::DeployServer;
use artifact_relay::fanout::{
    manual_target_path, remote_dir_step, remote_target_dir, resolve_filename_token,
    substitute_command, substitute_commands, DeployReport, FanoutRun, RemoteDirStep,
};

fn server(name: &str, enabled: bool) -> DeployServer {
    DeployServer {
        id: name.to_string(),
        enabled,
        name: name.to_string(),
        host: "host.example".to_string(),
        port: 22,
        user: "user".to_string(),
        password: "SECRET-REDACTED".to_string(),
        remote_path: "/srv/upload".to_string(),
    }
}

fn report(idx: usize, name: &str, success: bool, detail: &str) -> DeployReport {
    DeployReport {
        target_index: idx,
        target_name: name.to_string(),
        success,
        detail: detail.to_string(),
        elapsed_seconds: 1,
        bytes_copied: 10,
    }
}

#[test]
fn a_failing_target_never_withholds_the_next() {
    // Three enabled targets; the second fails authentication. All three
    // are attempted and each reports its own outcome.
    let servers = vec![server("one", true), server("two", true), server("three", true)];
    let mut run = FanoutRun::begin(servers);

    let first = run.next_target(false).unwrap();
    assert_eq!(first, 0);
    run.record(report(first, "one", true, "ok"));

    let second = run.next_target(false).unwrap();
    assert_eq!(second, 1);
    run.record(report(second, "two", false, "Authentication failed"));

    let third = run.next_target(false).unwrap();
    assert_eq!(third, 2);
    run.record(report(third, "three", true, "ok"));

    assert_eq!(run.next_target(false), None);
    assert_eq!(run.reports.len(), 3);
    assert!(run.reports[0].success);
    assert!(!run.reports[1].success);
    assert!(run.reports[2].success);
}

#[test]
fn disabled_targets_are_skipped() {
    let servers = vec![server("one", false), server("two", true), server("three", false)];
    let mut run = FanoutRun::begin(servers);
    let idx = run.next_target(false).unwrap();
    assert_eq!(idx, 1);
    run.record(report(idx, "two", true, "ok"));
    assert_eq!(run.next_target(false), None);
    assert_eq!(run.reports.len(), 1);
}

#[test]
fn cancellation_aborts_targets_not_yet_started() {
    let servers = vec![server("one", true), server("two", true)];
    let mut run = FanoutRun::begin(servers);
    let idx = run.next_target(false).unwrap();
    run.record(report(idx, "one", true, "ok"));
    // Cancellation arrives before the second target connects.
    assert_eq!(run.next_target(true), None);
    assert_eq!(run.reports.len(), 1);
}

#[test]
fn filename_token_resolves_to_first_tarball_stem() {
    let listing = vec!["build.log".to_string(), "app-2.1.0.tar.gz".to_string()];
    let cmd = substitute_command("echo ${filename}", &listing, "folder-name");
    assert_eq!(cmd, "echo app-2.1.0");
}

#[test]
fn filename_token_falls_back_to_the_artifact_name() {
    let listing = vec!["build.log".to_string(), "readme.md".to_string()];
    let cmd = substitute_command("echo ${filename}", &listing, "folder-name");
    assert_eq!(cmd, "echo folder-name");
    let empty: Vec<String> = Vec::new();
    let cmd = substitute_command("echo ${filename}", &empty, "folder-name");
    assert_eq!(cmd, "echo folder-name");
}

#[test]
fn every_token_occurrence_is_replaced() {
    let listing = vec!["pkg.tar.gz".to_string()];
    let cmd = substitute_command(
        "install ${filename} && verify ${filename}",
        &listing,
        "folder",
    );
    assert_eq!(cmd, "install pkg && verify pkg");
    let untouched = substitute_command("service restart", &listing, "folder");
    assert_eq!(untouched, "service restart");
}

#[test]
fn repeated_tarball_suffixes_are_all_stripped() {
    let listing = vec!["odd.tar.gz.tar.gz".to_string()];
    assert_eq!(resolve_filename_token(&listing, "f"), "odd");
}

#[test]
fn command_lists_substitute_in_order() {
    let listing = vec!["app-1.0.tar.gz".to_string()];
    let cmds = vec!["tar xzf ${filename}.tar.gz".to_string(), "ls".to_string()];
    let out = substitute_commands(&cmds, &listing, "folder");
    assert_eq!(out, vec!["tar xzf app-1.0.tar.gz".to_string(), "ls".to_string()]);
}

#[test]
fn remote_destination_joins_base_and_artifact() {
    assert_eq!(remote_target_dir("/srv/upload", "build-7"), "/srv/upload/build-7");
    assert_eq!(remote_target_dir("/srv/upload///", "build-7"), "/srv/upload/build-7");
    assert_eq!(remote_dir_step(true), RemoteDirStep::UploadInto);
    assert_eq!(remote_dir_step(false), RemoteDirStep::CreateThenUpload);
}

#[test]
fn manual_destination_handles_trailing_separators() {
    assert_eq!(manual_target_path("/opt/drop", "art"), "/opt/drop");
    assert_eq!(manual_target_path("/opt/drop/", "art"), "/opt/drop/art");
    assert_eq!(manual_target_path("C:\\drop\\", "art"), "C:/drop//art");
}
