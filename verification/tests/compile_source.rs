use bridger::compile_source::{
    binary_file_name_for, join_with_spaces, CompileAction, CompileChannel, CompileSourceExecutor, CompileStage, RunOutcome,
};
use bridger::error::BridgerError;

fn executor(channel: CompileChannel, toolchain: Option<&str>) -> CompileSourceExecutor {
    CompileSourceExecutor::new(
        "pangolin-pangoro".to_string(),
        vec!["start".to_string()],
        channel,
        toolchain.map(|t| t.to_string()),
    )
}

fn prefixes() -> Vec<String> {
    vec!["bridge-".to_string(), "darwinia-".to_string()]
}

#[test]
fn channel_names() {
    assert_eq!(CompileChannel::Debug.name(), "debug");
    assert_eq!(CompileChannel::Release.name(), "release");
}

#[test]
fn build_args_with_toolchain_and_release() {
    let e = executor(CompileChannel::Release, Some("nightly"));
    assert_eq!(e.cargo_build_args("bridge-x"), vec!["+nightly", "build", "--release", "-p", "bridge-x"]);
}

#[test]
fn build_args_for_debug() {
    let e = executor(CompileChannel::Debug, None);
    assert_eq!(e.cargo_build_args("bridge-x"), vec!["build", "-p", "bridge-x"]);
}

#[test]
fn binary_names() {
    assert_eq!(binary_file_name_for("bridge-x", true), "bridge-x.exe");
    assert_eq!(binary_file_name_for("bridge-x", false), "bridge-x");
}

#[test]
fn no_binary_path() {
    let e = executor(CompileChannel::Debug, None);
    let (mut run, first) = e.start_run(prefixes(), false);
    assert!(matches!(first, CompileAction::LocateSelf));
    match run.on_located(false) {
        CompileAction::Done(Err(BridgerError::Subcommand(m))) => {
            assert_eq!(m, "Can not get the binary path for bridger")
        },
        _ => panic!("expected a subcommand error"),
    }
}

#[test]
fn unsupported_when_no_directory_exists() {
    let e = executor(CompileChannel::Debug, None);
    let (mut run, _) = e.start_run(prefixes(), false);
    match run.on_located(true) {
        CompileAction::CheckDir(d) => assert_eq!(d, "pangolin-pangoro"),
        _ => panic!(),
    }
    match run.on_dir_checked(false) {
        CompileAction::CheckDir(d) => assert_eq!(d, "bridge-pangolin-pangoro"),
        _ => panic!(),
    }
    match run.on_dir_checked(false) {
        CompileAction::CheckDir(d) => assert_eq!(d, "pangolin-pangoro"),
        _ => panic!(),
    }
    assert_eq!(run.current_stage(), CompileStage::CheckPlainDir(1));
    match run.on_dir_checked(false) {
        CompileAction::CheckDir(d) => assert_eq!(d, "darwinia-pangolin-pangoro"),
        _ => panic!(),
    }
    match run.on_dir_checked(false) {
        CompileAction::Done(Err(e)) => assert_eq!(
            e,
            BridgerError::UnsupportExternal("Not support this subcommand: pangolin-pangoro".to_string())
        ),
        _ => panic!(),
    }
}

#[test]
fn builds_prefixed_package_in_plain_directory_and_runs_it() {
    let e = executor(CompileChannel::Release, None);
    let (mut run, _) = e.start_run(prefixes(), true);
    run.on_located(true);
    match run.on_dir_checked(true) {
        CompileAction::Build { dir, args } => {
            assert_eq!(dir, "pangolin-pangoro");
            assert_eq!(args, vec!["build", "--release", "-p", "bridge-pangolin-pangoro"]);
        },
        _ => panic!(),
    }
    match run.on_built(None) {
        CompileAction::CheckBinary { dir, channel, file } => {
            assert_eq!(dir, "pangolin-pangoro");
            assert_eq!(channel, "release");
            assert_eq!(file, "bridge-pangolin-pangoro.exe");
        },
        _ => panic!(),
    }
    match run.on_binary_checked(true, "/b/target/debug") {
        CompileAction::RunBinary { command, dir, channel, file, args } => {
            assert_eq!(command, "bridge-pangolin-pangoro");
            assert_eq!(dir, "pangolin-pangoro");
            assert_eq!(channel, "release");
            assert_eq!(file, "bridge-pangolin-pangoro.exe");
            assert_eq!(args, vec!["start"]);
        },
        _ => panic!(),
    }
    assert!(matches!(run.on_binary_ran(RunOutcome::Succeeded), CompileAction::Done(Ok(()))));
}

#[test]
fn failed_build_ends_without_error() {
    let e = executor(CompileChannel::Debug, None);
    let (mut run, _) = e.start_run(prefixes(), false);
    run.on_located(true);
    run.on_dir_checked(false);
    match run.on_dir_checked(true) {
        CompileAction::Build { dir, .. } => assert_eq!(dir, "bridge-pangolin-pangoro"),
        _ => panic!(),
    }
    assert!(matches!(run.on_built(Some("exit status: 101".to_string())), CompileAction::Done(Ok(()))));
    assert_eq!(
        run.failure(),
        &Some(BridgerError::Process(
            "cargo".to_string(),
            "build -p bridge-pangolin-pangoro".to_string(),
            "exit status: 101".to_string()
        ))
    );
}

#[test]
fn missing_binary_or_subcommand_error_tries_next_prefix() {
    let e = executor(CompileChannel::Debug, None);
    let (mut run, _) = e.start_run(prefixes(), false);
    run.on_located(true);
    run.on_dir_checked(true);
    run.on_built(None);
    match run.on_binary_checked(false, "/b/target/debug") {
        CompileAction::CheckDir(d) => assert_eq!(d, "pangolin-pangoro"),
        _ => panic!(),
    }
    assert_eq!(
        run.failure(),
        &Some(BridgerError::Subcommand(
            "The command bridge-pangolin-pangoro not found in path: /b/target/debug".to_string()
        ))
    );
    run.on_dir_checked(true);
    run.on_built(None);
    run.on_binary_checked(true, "/b/target/debug");
    assert!(matches!(run.on_binary_ran(RunOutcome::SubcommandFailed), CompileAction::Done(Err(_))));
}

#[test]
fn other_run_failure_counts_as_handled() {
    let e = executor(CompileChannel::Debug, None);
    let (mut run, _) = e.start_run(prefixes(), false);
    run.on_located(true);
    run.on_dir_checked(true);
    run.on_built(None);
    run.on_binary_checked(true, "/b/target/debug");
    assert!(matches!(run.on_binary_ran(RunOutcome::OtherFailed), CompileAction::Done(Ok(()))));
}

#[test]
fn executor_keeps_its_settings() {
    let e = executor(CompileChannel::Debug, Some("stable"));
    assert_eq!(e.command(), "pangolin-pangoro");
    let copy = e.duplicate();
    assert_eq!(copy.cargo_build_args("p"), e.cargo_build_args("p"));
}

#[test]
fn words_joined_by_spaces() {
    assert_eq!(join_with_spaces(&vec![]), "");
    assert_eq!(join_with_spaces(&vec!["build".to_string()]), "build");
    assert_eq!(
        join_with_spaces(&vec!["+nightly".to_string(), "build".to_string(), "-p".to_string(), "x".to_string()]),
        "+nightly build -p x"
    );
}

#[test]
fn successful_steps_form_no_failure() {
    let e = executor(CompileChannel::Debug, None);
    let (mut run, _) = e.start_run(prefixes(), false);
    assert_eq!(run.failure(), &None);
    run.on_located(true);
    run.on_dir_checked(true);
    run.on_built(None);
    assert_eq!(run.failure(), &None);
    run.on_binary_checked(true, "/b");
    assert_eq!(run.failure(), &None);
}
