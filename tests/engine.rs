use rush::commands::Executable;
use rush::engine::{exit_result, DrainState, Packet, Poll, PollAction};
use rush::error::RushError;
use rush::exec_errors::{ExecErrorCategory, RuntimeError, TerminalError};
use rush::path::Path;

/// Runs the drain loop over scripted channel reads and polls; the process is
/// seen exited from pass `exit_pass` on. Returns the lines written and the
/// count of passes, or the stream error.
fn drain(
    outs: Vec<Packet>,
    errs: Vec<Packet>,
    exit_pass: usize,
) -> Result<(Vec<String>, usize), TerminalError> {
    let mut outs = outs.into_iter();
    let mut errs = errs.into_iter();
    let mut state = DrainState::new();
    let mut sink = Vec::new();
    let mut pass = 0;
    while !state.is_finished() {
        if let Some(line) = state.receive_stdout(outs.next().unwrap_or(Packet::Empty))? {
            sink.push(line);
        }
        if let Some(line) = state.receive_stderr(errs.next().unwrap_or(Packet::Empty))? {
            sink.push(line);
        }
        if state.needs_poll() {
            let poll = if pass >= exit_pass { Poll::Exited } else { Poll::Running };
            match state.record_poll(poll) {
                PollAction::Stop => break,
                PollAction::Sleep | PollAction::Continue => {}
            }
        }
        pass += 1;
    }
    Ok((sink, pass))
}

fn lines(n: usize, prefix: &str) -> Vec<Packet> {
    (0..n).map(|i| Packet::Line(format!("{}{}", prefix, i))).collect()
}

fn program() -> Executable {
    Executable::new(Path::new("/bin/prog".to_string(), &"/home/u".to_string()).unwrap())
}

#[test]
fn stdout_lines_arrive_in_order_and_succeed() {
    let (sink, _) = drain(lines(5, "line "), vec![], 2).unwrap();
    let expected: Vec<String> = (0..5).map(|i| format!("line {}", i)).collect();
    assert_eq!(sink, expected);
    assert!(program().finish(Some(0), vec![]).is_ok());
}

#[test]
fn nonzero_exit_maps_to_its_code() {
    assert_eq!(exit_result(Some(3)), Err(RuntimeError::FailedToExecute(3)));
    assert_eq!(exit_result(Some(0)), Ok(()));
    assert_eq!(exit_result(None), Err(RuntimeError::FailedToExecute(126)));
    match program().finish(Some(7), vec!["a".to_string()]) {
        Err(RushError::Exec(e)) => {
            assert_eq!(e.kind, ExecErrorCategory::Runtime(RuntimeError::FailedToExecute(7)));
            assert_eq!(e.context.command_name, "/bin/prog");
            assert_eq!(e.context.command_args, vec!["a".to_string()]);
        }
        _ => panic!("expected a runtime error"),
    }
}

#[test]
fn exit_one_without_output_writes_nothing() {
    let (sink, _) = drain(vec![], vec![], 0).unwrap();
    assert!(sink.is_empty());
    match program().finish(Some(1), vec![]) {
        Err(RushError::Exec(e)) => {
            assert_eq!(e.kind, ExecErrorCategory::Runtime(RuntimeError::FailedToExecute(1)))
        }
        _ => panic!("expected a runtime error"),
    }
}

#[test]
fn loop_ends_despite_skewed_output() {
    let (sink, passes) = drain(lines(20000, "o"), lines(3, "e"), 5).unwrap();
    assert_eq!(sink.len(), 20003);
    assert!(passes <= 5 + 2 + 20000 + 3);
}

#[test]
fn loop_ends_two_passes_after_exit_when_quiet() {
    let (_, passes) = drain(vec![], vec![], 0).unwrap();
    assert_eq!(passes, 2);
}

#[test]
fn exit_seen_forces_one_more_pass() {
    let mut s = DrainState::new();
    s.receive_stdout(Packet::Empty).unwrap();
    s.receive_stderr(Packet::Empty).unwrap();
    assert_eq!(s.record_poll(Poll::Exited), PollAction::Continue);
    assert!(!s.is_finished());
    assert!(!s.stdout_done && !s.stderr_done && s.process_done);
    assert!(!s.needs_poll());
}

#[test]
fn running_process_sleeps_and_poll_failure_stops() {
    let mut s = DrainState::new();
    assert_eq!(s.record_poll(Poll::Running), PollAction::Sleep);
    assert_eq!(s.record_poll(Poll::Failed), PollAction::Stop);
    assert!(!s.process_done);
}

#[test]
fn decode_failure_becomes_terminal_error() {
    let r = drain(vec![Packet::Failed("invalid UTF-8".to_string())], vec![], 3);
    assert_eq!(r, Err(TerminalError::FailedToParseStdout("invalid UTF-8".to_string())));
    let mut s = DrainState::new();
    assert_eq!(
        s.receive_stderr(Packet::Failed("x".to_string())),
        Err(TerminalError::FailedToParseStderr("x".to_string()))
    );
    match program().stream_failed(TerminalError::FailedToParseStderr("x".to_string()), vec![]) {
        RushError::Exec(e) => assert_eq!(
            e.kind,
            ExecErrorCategory::Terminal(TerminalError::FailedToParseStderr("x".to_string()))
        ),
        _ => panic!("expected an execution error"),
    }
}

#[test]
fn vanished_path_is_a_filesystem_error() {
    match program().spawn_failed(vec!["-l".to_string()]) {
        RushError::Exec(e) => {
            assert_eq!(e.render(), "[ERROR]:\n    [CATEGORY]: Filesystem\n    [MESSAGE]: Previously-valid path no longer exists: /bin/prog\n[CONTEXT]:\n    [TYPE]: Executable\n    [COMMAND]: /bin/prog\n    [ARGUMENTS]: -l\n");
        }
        _ => panic!("expected an execution error"),
    }
}
