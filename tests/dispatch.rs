use rush::commands::{Builtin, BuiltinAction, StatusCode};
use rush::dispatcher::{external_target, first_failure, Dispatcher, Runnable};
use rush::error::RushError;
use rush::eval_errors::{DispatchError, EvalError, EvalErrorCategory};
use rush::exec_errors::{ArgumentError, CommandType, ExecError, ExecErrorCategory, RuntimeError};
use rush::path::resolve_executable;

fn strings(v: &[&str]) -> Vec<String> {
    v.iter().map(|s| s.to_string()).collect()
}

fn exit_registry() -> Dispatcher {
    let mut d = Dispatcher::new();
    d.add_builtin("exit", vec!["quit", "q"], BuiltinAction::Exit);
    d
}

#[test]
fn alias_resolves_and_lookup_is_case_sensitive() {
    let d = exit_registry();
    assert_eq!(d.resolve("q").unwrap().true_name, "exit");
    assert_eq!(d.resolve("quit").unwrap().true_name, "exit");
    assert_eq!(d.resolve("exit").unwrap().true_name, "exit");
    assert!(d.resolve("Q").is_none());
}

#[test]
fn true_name_wins_over_an_earlier_alias() {
    let mut d = Dispatcher::new();
    d.add_builtin("first", vec!["x"], BuiltinAction::Test);
    d.add_builtin("x", vec![], BuiltinAction::Exit);
    assert_eq!(d.resolve("x").unwrap().true_name, "x");
}

#[test]
fn first_registered_alias_wins() {
    let mut d = Dispatcher::new();
    d.add_builtin("one", vec!["shared"], BuiltinAction::Test);
    d.add_builtin("two", vec!["shared"], BuiltinAction::Exit);
    assert_eq!(d.resolve("shared").unwrap().true_name, "one");
    assert!(d.resolve("three").is_none());
}

#[test]
fn default_registry_has_every_builtin() {
    let d = Dispatcher::default();
    assert_eq!(d.commands.len(), 16);
    assert_eq!(d.resolve("ls").unwrap().true_name, "list-directory");
    assert_eq!(d.resolve("cd").unwrap().action, BuiltinAction::ChangeDirectory);
    assert_eq!(d.resolve("cat").unwrap().true_name, "read-file");
    assert_eq!(d.resolve("ep").unwrap().action, BuiltinAction::EditPath);
    assert!(d.resolve("frobnicate").is_none());
}

#[test]
fn path_order_wins_over_lexical_order() {
    let path = strings(&["/usr/bin", "/bin"]);
    assert_eq!(resolve_executable("tool", &path, &vec![false, true]), Some("/bin/tool".to_string()));
    assert_eq!(
        resolve_executable("tool", &path, &vec![true, true]),
        Some("/usr/bin/tool".to_string())
    );
    assert_eq!(resolve_executable("tool", &path, &vec![false, false]), None);
}

#[test]
fn no_execute_bit_is_refused_with_the_bits() {
    let home = "/home/u".to_string();
    match external_target("tool", strings(&["a"]), Some("/bin/tool".to_string()), Some(0o644), &home) {
        Err(e) => {
            assert_eq!(e.kind, EvalErrorCategory::Dispatch(DispatchError::NotAnExecutable(0o644)));
            assert_eq!(e.context.command_name, "tool");
            assert_eq!(e.context.command_args, strings(&["a"]));
        }
        Ok(_) => panic!("expected a refusal"),
    }
    match external_target("tool", vec![], Some("/bin/tool".to_string()), Some(0o100644), &home) {
        Err(e) => assert_eq!(
            e.kind,
            EvalErrorCategory::Dispatch(DispatchError::NotAnExecutable(0o100644))
        ),
        Ok(_) => panic!("expected a refusal"),
    }
    for bits in [0o744u32, 0o654, 0o645, 0o100755] {
        match external_target("tool", vec![], Some("/bin/tool".to_string()), Some(bits), &home) {
            Ok(x) => assert_eq!(x.path.absolute(), "/bin/tool"),
            Err(_) => panic!("expected an executable"),
        }
    }
}

#[test]
fn unknown_and_unreadable_commands() {
    let home = "/home/u".to_string();
    match external_target("nope", vec![], None, None, &home) {
        Err(e) => assert_eq!(
            e.kind,
            EvalErrorCategory::Dispatch(DispatchError::UnknownCommand("nope".to_string()))
        ),
        Ok(_) => panic!("expected an unknown command"),
    }
    match external_target("t", vec![], Some("/bin/t".to_string()), None, &home) {
        Err(e) => assert_eq!(
            e.kind,
            EvalErrorCategory::Dispatch(DispatchError::FailedToReadMetadata("/bin/t".to_string()))
        ),
        Ok(_) => panic!("expected a metadata failure"),
    }
}

#[test]
fn dispatch_prefers_builtins_then_path() {
    let d = exit_registry();
    let home = "/home/u".to_string();
    let path = strings(&["/usr/bin", "/bin"]);
    let exists = vec![false, true];
    match d.dispatch("q", vec![], &path, &exists, Some(0o755), &home) {
        Ok(Runnable::Builtin(b)) => assert_eq!(b.true_name, "exit"),
        _ => panic!("expected the builtin"),
    }
    match d.dispatch("ls", vec![], &path, &exists, Some(0o755), &home) {
        Ok(Runnable::Executable(x)) => assert_eq!(x.path.absolute(), "/bin/ls"),
        _ => panic!("expected the executable"),
    }
    match d.dispatch("ls", vec![], &path, &exists, Some(0o600), &home) {
        Err(e) => assert_eq!(e.kind, EvalErrorCategory::Dispatch(DispatchError::NotAnExecutable(0o600))),
        _ => panic!("expected a refusal"),
    }
    match d.dispatch("ls", vec![], &path, &vec![false, false], None, &home) {
        Err(e) => assert_eq!(
            e.kind,
            EvalErrorCategory::Dispatch(DispatchError::UnknownCommand("ls".to_string()))
        ),
        _ => panic!("expected an unknown command"),
    }
}

#[test]
fn zero_argument_builtin_rejects_arguments() {
    let b = Builtin::new("test", strings(&["t"]), BuiltinAction::Test);
    for n in 1..4usize {
        let args: Vec<String> = (0..n).map(|i| i.to_string()).collect();
        match b.invoke(args.clone()) {
            Err(RushError::Exec(e)) => {
                assert_eq!(
                    e.kind,
                    ExecErrorCategory::Argument(ArgumentError::InvalidArgumentCount(0, n))
                );
                assert_eq!(e.context.command_type, CommandType::Builtin);
                assert_eq!(e.context.command_name, "test");
                assert_eq!(e.context.command_args, args);
            }
            _ => panic!("expected an argument error"),
        }
    }
    assert_eq!(b.invoke(vec![]).unwrap(), Vec::<String>::new());
}

#[test]
fn fixed_arity_and_usage() {
    let cd = Builtin::new("change-directory", strings(&["cd"]), BuiltinAction::ChangeDirectory);
    assert_eq!(cd.invoke(strings(&["/tmp"])).unwrap(), strings(&["/tmp"]));
    assert!(cd.invoke(vec![]).is_err());
    assert_eq!(cd.usage_line(), "Usage: change-directory <path>");
    let t = Builtin::new("test", vec![], BuiltinAction::Test);
    assert_eq!(t.usage_line(), "Usage: test ");
    let run = Builtin::new("run-executable", vec![], BuiltinAction::RunExecutable);
    match run.invoke(vec![]) {
        Err(RushError::Exec(e)) => assert_eq!(
            e.kind,
            ExecErrorCategory::Argument(ArgumentError::InvalidArgumentCount(1, 0))
        ),
        _ => panic!("expected an argument error"),
    }
    let ls = Builtin::new("list-directory", vec![], BuiltinAction::ListDirectory);
    assert_eq!(ls.invoke(strings(&["-a", "/x"])).unwrap(), strings(&["-a", "/x"]));
}

#[test]
fn first_error_is_reported_after_all_ran() {
    let e1 = RushError::from(EvalError::new(DispatchError::UnknownCommand("a".to_string()), "a", vec![]));
    let e2 = RushError::from(ExecError::new(RuntimeError::FailedToRun, CommandType::Builtin, "b", vec![]));
    let expected = RushError::from(EvalError::new(DispatchError::UnknownCommand("a".to_string()), "a", vec![]));
    assert_eq!(first_failure(vec![Ok(()), Err(e1), Ok(()), Err(e2)]), Err(expected));
    assert_eq!(first_failure(vec![Ok(()), Ok(())]), Ok(()));
    assert_eq!(first_failure(vec![]), Ok(()));
}

#[test]
fn status_codes() {
    assert!(StatusCode::success().is_success());
    assert_eq!(StatusCode::new(2).code, 2);
    assert!(!StatusCode::new(2).is_success());
}
