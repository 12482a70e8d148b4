use cargo_pgo::build::{
    parse_cargo_args, plan_with_flags, require_success, run_outcome, CommandError,
    ExecutionResult, NextStep, ProcessInvocation,
};
use cargo_pgo::pgo::CargoCommand;

const HOST: &str = "x86_64-unknown-linux-gnu";

fn strings(tokens: &[&str]) -> Vec<String> {
    tokens.iter().map(|token| token.to_string()).collect()
}

fn ended(code: i32, stderr: &[u8]) -> ExecutionResult {
    ExecutionResult {
        code: Some(code),
        status: format!("exit status: {}", code),
        stdout: Vec::new(),
        stderr: stderr.to_vec(),
    }
}

/// Plans the command and answers the question for the default target, if it
/// is asked, with `HOST`. Returns the invocation and whether it was asked.
fn planned(command: CargoCommand, flags: &str, args: &[&str]) -> (ProcessInvocation, bool) {
    let plan = plan_with_flags(command, None, flags, strings(args));
    match plan.step {
        NextStep::Spawn(invocation) => (invocation, false),
        NextStep::ResolveTarget(pending) => (
            pending.resolve(Ok(HOST.to_string())).expect("the target was found"),
            true,
        ),
    }
}

/// Takes one word of the command line through the steps of the library, with
/// a child process that ends with success: `build`, `test` and `run` under
/// instrumentation, `optimize` as the build that uses the profile.
fn run(words: &[&str]) -> Result<ExecutionResult, CommandError> {
    let (command, flags) = match words[0] {
        "build" => (CargoCommand::Build, "-Cprofile-generate=target/pgo-profiles"),
        "test" => (CargoCommand::Test, "-Cprofile-generate=target/pgo-profiles"),
        "run" => (CargoCommand::Run, "-Cprofile-generate=target/pgo-profiles"),
        "optimize" => (CargoCommand::Build, "-Cprofile-use=target/pgo-profiles/merged.profdata"),
        other => panic!("no such command: {}", other),
    };
    let (invocation, asked) = planned(command, flags, &words[1..]);
    assert!(asked);
    assert_eq!(invocation.program, "cargo");
    assert_eq!(invocation.args[0], command.to_str());
    assert_eq!(
        invocation.args[1..],
        strings(&["--release", "--message-format", "json-diagnostic-rendered-ansi", "--target", HOST])[..]
    );
    assert_eq!(
        invocation.env.into_entries(),
        vec![("RUSTFLAGS".to_string(), format!(" {}", flags))]
    );
    require_success(run_outcome(Ok(ended(0, b"")))?)
}

#[test]
fn test_build_optimize() {
    assert!(run(&["build"]).is_ok());
    assert!(run(&["optimize"]).is_ok());
}

#[test]
fn test_test_optimize() {
    let (invocation, _) = planned(
        CargoCommand::Test,
        "-Cprofile-generate=target/pgo-profiles",
        &["--lib", "--", "src/lib.rs"],
    );
    assert_eq!(invocation.args[0], "test");
    assert_eq!(invocation.args[6..], strings(&["--lib", "--", "src/lib.rs"])[..]);
    assert!(run(&["test"]).is_ok());
    assert!(run(&["optimize"]).is_ok());
}

#[test]
fn test_run_optimize() {
    assert!(run(&["run"]).is_ok());
    assert!(run(&["optimize"]).is_ok());
}

#[test]
fn release_is_filtered_and_default_target_added() {
    let parsed = parse_cargo_args(strings(&["foo", "--release", "--bar"]));
    assert_eq!(parsed.filtered, strings(&["foo", "--bar"]));
    assert!(!parsed.contains_target);

    let (invocation, asked) = planned(CargoCommand::Build, "-C foo", &["foo", "--release", "--bar"]);
    assert!(asked);
    assert_eq!(
        invocation.args,
        strings(&[
            "build",
            "--release",
            "--message-format",
            "json-diagnostic-rendered-ansi",
            "--target",
            HOST,
            "foo",
            "--bar",
        ])
    );
}

#[test]
fn explicit_target_is_kept_and_not_doubled() {
    let parsed = parse_cargo_args(strings(&["--target", "x64", "bar"]));
    assert_eq!(parsed.filtered, strings(&["--target", "x64", "bar"]));
    assert!(parsed.contains_target);

    let (invocation, asked) = planned(CargoCommand::Build, "-C foo", &["--target", "x64", "bar"]);
    assert!(!asked);
    assert_eq!(
        invocation.args,
        strings(&[
            "build",
            "--release",
            "--message-format",
            "json-diagnostic-rendered-ansi",
            "--target",
            "x64",
            "bar",
        ])
    );
    let targets = invocation.args.iter().filter(|arg| arg.as_str() == "--target").count();
    assert_eq!(targets, 1);
}

#[test]
fn failed_build_reports_stderr_and_status() {
    let ran = run_outcome(Ok(ended(101, b"error[E0001]: ..."))).expect("the process ran");
    assert!(!ran.success());
    assert_eq!(ran.stderr, b"error[E0001]: ...".to_vec());
    match require_success(ran) {
        Err(error) => {
            let message = error.message();
            assert!(message.starts_with("Cargo error (exit status: 101): "));
            assert!(message.contains("error[E0001]: ..."));
            assert!(matches!(
                error,
                CommandError::Build { result, .. } if result.stderr == b"error[E0001]: ...".to_vec()
            ));
        }
        Ok(ran) => panic!("an error is expected, not {:?}", ran),
    }
}
