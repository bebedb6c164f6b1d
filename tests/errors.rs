use rush::error::{error_fmt, RushError};
use rush::eval_errors::{DispatchError, EvalError, EvalErrorCategory};
use rush::exec_errors::{
    ArgumentError, CommandType, ExecError, ExecErrorCategory, FilesystemError, RuntimeError,
    TerminalError,
};

fn strings(v: &[&str]) -> Vec<String> {
    v.iter().map(|s| s.to_string()).collect()
}

#[test]
fn unknown_command_renders_full_layout() {
    let e = EvalError::new(
        DispatchError::UnknownCommand("foo".to_string()),
        "foo",
        strings(&["a", "b"]),
    );
    assert_eq!(
        e.render(),
        "[ERROR]:\n    [CATEGORY]: Dispatch\n    [MESSAGE]: Command name 'foo' not found as a builtin or an executable in PATH\n[CONTEXT]:\n    [COMMAND]: foo\n    [ARGUMENTS]: a b\n"
    );
}

#[test]
fn not_executable_message_shows_bits_in_decimal() {
    let d = DispatchError::NotAnExecutable(0o644);
    assert_eq!(d.message(), "File lacks executable permissions. Current permissions: 420");
}

#[test]
fn metadata_failure_message() {
    let d = DispatchError::FailedToReadMetadata("/bin/x".to_string());
    assert_eq!(d.message(), "Command metadata for '/bin/x' could not be read");
}

#[test]
fn exec_error_renders_type_and_comma_joined_args() {
    let e = ExecError::new(
        ArgumentError::InvalidArgumentCount(0, 2),
        CommandType::Builtin,
        "test",
        strings(&["x", "y"]),
    );
    assert_eq!(
        e.render(),
        "[ERROR]:\n    [CATEGORY]: Argument\n    [MESSAGE]: Expected 0 arguments, got 2\n[CONTEXT]:\n    [TYPE]: Builtin\n    [COMMAND]: test\n    [ARGUMENTS]: x, y\n"
    );
}

#[test]
fn runtime_error_with_negative_code() {
    let e = ExecError::new(
        RuntimeError::FailedToExecute(-3),
        CommandType::Executable,
        "/bin/p",
        vec![],
    );
    assert_eq!(
        e.render(),
        "[ERROR]:\n    [CATEGORY]: Runtime\n    [MESSAGE]: Executable failed to run with exit code: -3\n[CONTEXT]:\n    [TYPE]: Executable\n    [COMMAND]: /bin/p\n    [ARGUMENTS]: \n"
    );
}

#[test]
fn every_exec_message() {
    assert_eq!(ArgumentError::InvalidArgument("k".to_string()).message(), "Invalid argument: k");
    assert_eq!(ArgumentError::InvalidValue("v".to_string()).message(), "Invalid value: v");
    assert_eq!(
        TerminalError::FailedToParseStdout("bad".to_string()).message(),
        "Failed to parse stdout: bad"
    );
    assert_eq!(
        TerminalError::FailedToParseStderr("bad".to_string()).message(),
        "Failed to parse stderr: bad"
    );
    assert_eq!(
        FilesystemError::FailedToReadFileType("/a".to_string()).message(),
        "Failed to read file type: /a"
    );
    assert_eq!(
        FilesystemError::FailedToReadFileName("/a".to_string()).message(),
        "Failed to read file name: /a"
    );
    assert_eq!(
        FilesystemError::FailedToReadDirectory("/a".to_string()).message(),
        "Failed to read directory: /a"
    );
    assert_eq!(
        FilesystemError::PathNoLongerExists("/a".to_string()).message(),
        "Previously-valid path no longer exists: /a"
    );
    assert_eq!(RuntimeError::FailedToRun.message(), "Failed to run builtin for some reason");
    assert_eq!(
        RuntimeError::FailedToExecute(126).message(),
        "Executable failed to run with exit code: 126"
    );
}

#[test]
fn category_names() {
    let c = ExecErrorCategory::Filesystem(FilesystemError::PathNoLongerExists("/p".to_string()));
    assert_eq!(
        c.render(),
        "[CATEGORY]: Filesystem\n[MESSAGE]: Previously-valid path no longer exists: /p"
    );
    let t = ExecErrorCategory::Terminal(TerminalError::FailedToParseStdout("x".to_string()));
    assert_eq!(t.render(), "[CATEGORY]: Terminal\n[MESSAGE]: Failed to parse stdout: x");
}

#[test]
fn error_layout_indents_each_line() {
    assert_eq!(error_fmt("a\nb", "c\r\nd\n"), "[ERROR]:\n    a\n    b\n[CONTEXT]:\n    c\n    d\n");
    assert_eq!(error_fmt("", "x\n\ny"), "[ERROR]:\n[CONTEXT]:\n    x\n    \n    y\n");
}

#[test]
fn context_is_kept_through_the_layers() {
    let e = EvalError::new(DispatchError::UnknownCommand("zz".to_string()), "zz", strings(&["1"]));
    let r = RushError::from(e);
    assert_eq!(r.command_name_if_unknown(), Some("zz"));
    match &r {
        RushError::Eval(x) => {
            assert_eq!(x.context.command_name, "zz");
            assert_eq!(x.context.command_args, strings(&["1"]));
            assert_eq!(
                x.kind,
                EvalErrorCategory::Dispatch(DispatchError::UnknownCommand("zz".to_string()))
            );
        }
        RushError::Exec(_) => panic!("expected a dispatch error"),
    }
}

#[test]
fn command_name_only_for_unknown_commands() {
    let e = EvalError::new(DispatchError::NotAnExecutable(0), "x", vec![]);
    assert_eq!(RushError::from(e).command_name_if_unknown(), None);
    let x = ExecError::new(RuntimeError::FailedToRun, CommandType::Builtin, "cd", vec![]);
    assert_eq!(RushError::from(x).command_name_if_unknown(), None);
}
