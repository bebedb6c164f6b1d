//! The two kinds of runnable commands: builtins and external executables.
use vstd::prelude::*;

use crate::engine::{exit_result, spec_exit_result};
use crate::error::{has_exec_context, is_exec_error, RushError};
use crate::exec_errors::{
    ArgumentError, CommandType, ExecError, ExecErrorCategory, ExecErrorContext, FilesystemError,
    TerminalError,
};
use crate::path::Path;
use crate::text::same_text;

verus! {

/// The other names of a builtin.
pub struct Aliases {
    pub aliases: Vec<String>,
}

impl Aliases {
    /// One of the aliases is `alias`.
    pub open spec fn spec_contains(&self, alias: Seq<char>) -> bool {
        exists|i: int| 0 <= i < self.aliases@.len() && self.aliases@[i]@ == alias
    }

    /// Whether one of the aliases is `alias`.
    pub fn contains(&self, alias: &str) -> (r: bool)
        ensures
            r == self.spec_contains(alias@),
    {
        let mut i: usize = 0;
        while i < self.aliases.len()
            invariant
                i <= self.aliases@.len(),
                forall|j: int| 0 <= j < i ==> self.aliases@[j]@ != alias@,
            decreases self.aliases.len() - i,
        {
            if same_text(self.aliases[i].as_str(), alias) {
                return true;
            }
            i = i + 1;
        }
        false
    }
}

/// The work a builtin does in the shell.
#[derive(Debug, Clone, Copy, PartialEq, Eq, Structural)]
pub enum BuiltinAction {
    Test,
    Exit,
    WorkingDirectory,
    ChangeDirectory,
    ListDirectory,
    PreviousDirectory,
    NextDirectory,
    ClearTerminal,
    MakeFile,
    MakeDirectory,
    DeleteFile,
    ReadFile,
    RunExecutable,
    Configure,
    EnvironmentVariable,
    EditPath,
}

impl BuiltinAction {
    /// The count of arguments the builtin takes, where it is fixed.
    pub open spec fn spec_arity(self) -> Option<usize> {
        match self {
            BuiltinAction::Test => Some(0),
            BuiltinAction::Exit => Some(0),
            BuiltinAction::WorkingDirectory => Some(0),
            BuiltinAction::ChangeDirectory => Some(1),
            BuiltinAction::ListDirectory => None,
            BuiltinAction::PreviousDirectory => Some(0),
            BuiltinAction::NextDirectory => Some(0),
            BuiltinAction::ClearTerminal => Some(0),
            BuiltinAction::MakeFile => Some(1),
            BuiltinAction::MakeDirectory => Some(1),
            BuiltinAction::DeleteFile => Some(1),
            BuiltinAction::ReadFile => Some(1),
            BuiltinAction::RunExecutable => None,
            BuiltinAction::Configure => Some(2),
            BuiltinAction::EnvironmentVariable => Some(1),
            BuiltinAction::EditPath => Some(2),
        }
    }

    /// The count of arguments the builtin takes, where it is fixed.
    pub fn arity(&self) -> (r: Option<usize>)
        ensures
            r == self.spec_arity(),
    {
        match self {
            BuiltinAction::Test => Some(0),
            BuiltinAction::Exit => Some(0),
            BuiltinAction::WorkingDirectory => Some(0),
            BuiltinAction::ChangeDirectory => Some(1),
            BuiltinAction::ListDirectory => None,
            BuiltinAction::PreviousDirectory => Some(0),
            BuiltinAction::NextDirectory => Some(0),
            BuiltinAction::ClearTerminal => Some(0),
            BuiltinAction::MakeFile => Some(1),
            BuiltinAction::MakeDirectory => Some(1),
            BuiltinAction::DeleteFile => Some(1),
            BuiltinAction::ReadFile => Some(1),
            BuiltinAction::RunExecutable => None,
            BuiltinAction::Configure => Some(2),
            BuiltinAction::EnvironmentVariable => Some(1),
            BuiltinAction::EditPath => Some(2),
        }
    }

    /// The arguments shown in the usage line.
    pub open spec fn spec_usage(self) -> Seq<char> {
        match self {
            BuiltinAction::ChangeDirectory | BuiltinAction::MakeFile | BuiltinAction::MakeDirectory
            | BuiltinAction::DeleteFile => "<path>"@,
            _ => Seq::<char>::empty(),
        }
    }
}

/// A command run inside the shell, with its name and aliases.
pub struct Builtin {
    pub true_name: String,
    pub aliases: Aliases,
    pub action: BuiltinAction,
}

impl Builtin {
    /// A builtin with the given name, aliases and work.
    pub fn new(true_name: &str, aliases: Vec<String>, action: BuiltinAction) -> (b: Builtin)
        ensures
            b.true_name@ == true_name@,
            b.aliases.aliases@ == aliases@,
            b.action == action,
    {
        Builtin { true_name: true_name.to_owned(), aliases: Aliases { aliases }, action }
    }

    /// The usage line shown when the arguments do not fit.
    pub open spec fn spec_usage_line(&self) -> Seq<char> {
        "Usage: "@ + self.true_name@ + " "@ + self.action.spec_usage()
    }

    /// The usage line shown when the arguments do not fit.
    pub fn usage_line(&self) -> (r: String)
        ensures
            r@ == self.spec_usage_line(),
    {
        let mut r = "Usage: ".to_owned();
        r.append(self.true_name.as_str());
        r.append(" ");
        match self.action {
            BuiltinAction::ChangeDirectory | BuiltinAction::MakeFile | BuiltinAction::MakeDirectory
            | BuiltinAction::DeleteFile => r.append("<path>"),
            _ => {
                assert(r@ + Seq::<char>::empty() =~= r@);
            },
        }
        r
    }

    /// An error of this builtin, about a run with `args`.
    pub fn error(&self, kind: ExecErrorCategory, args: Vec<String>) -> (e: RushError)
        ensures
            is_exec_error(e, kind, CommandType::Builtin, self.true_name@, args@),
    {
        RushError::Exec(
            ExecError {
                kind,
                context: ExecErrorContext {
                    command_type: CommandType::Builtin,
                    command_name: self.true_name.clone(),
                    command_args: args,
                },
            },
        )
    }

    /// Checks the count of arguments and hands them back for the builtin's
    /// work; a count that does not fit the builtin is an argument error.
    pub fn invoke(&self, args: Vec<String>) -> (r: Result<Vec<String>, RushError>)
        ensures
            match self.action.spec_arity() {
                Some(n) => if args@.len() == n {
                    r matches Ok(a) && a@ == args@
                } else {
                    r matches Err(e) && is_exec_error(
                        e,
                        ExecErrorCategory::Argument(
                            ArgumentError::InvalidArgumentCount(n, args@.len() as usize),
                        ),
                        CommandType::Builtin,
                        self.true_name@,
                        args@,
                    )
                },
                None => if self.action == BuiltinAction::RunExecutable && args@.len() == 0 {
                    r matches Err(e) && is_exec_error(
                        e,
                        ExecErrorCategory::Argument(ArgumentError::InvalidArgumentCount(1, 0)),
                        CommandType::Builtin,
                        self.true_name@,
                        args@,
                    )
                } else {
                    r matches Ok(a) && a@ == args@
                },
            },
    {
        match self.action.arity() {
            Some(n) => {
                if args.len() == n {
                    Ok(args)
                } else {
                    let count = args.len();
                    let kind = ExecErrorCategory::Argument(
                        ArgumentError::InvalidArgumentCount(n, count),
                    );
                    Err(self.error(kind, args))
                }
            },
            None => {
                if self.action == BuiltinAction::RunExecutable && args.len() == 0 {
                    let kind = ExecErrorCategory::Argument(
                        ArgumentError::InvalidArgumentCount(1, 0),
                    );
                    Err(self.error(kind, args))
                } else {
                    Ok(args)
                }
            },
        }
    }
}

/// An external program, found at a path that was checked to exist and to be
/// executable.
pub struct Executable {
    pub path: Path,
}

impl Executable {
    /// An executable at a path that was checked beforehand.
    pub fn new(path: Path) -> (e: Executable)
        ensures
            e.path == path,
    {
        Executable { path }
    }

    /// An error of this executable, about a run with `args`.
    fn error(&self, kind: ExecErrorCategory, args: Vec<String>) -> (e: RushError)
        ensures
            is_exec_error(e, kind, CommandType::Executable, self.path@.absolute, args@),
    {
        RushError::Exec(
            ExecError {
                kind,
                context: ExecErrorContext {
                    command_type: CommandType::Executable,
                    command_name: self.path.absolute().clone(),
                    command_args: args,
                },
            },
        )
    }

    /// The error when the process could not be started: the path went away
    /// after it was checked.
    pub fn spawn_failed(&self, args: Vec<String>) -> (e: RushError)
        ensures
            e matches RushError::Exec(x) && x.kind matches ExecErrorCategory::Filesystem(
                FilesystemError::PathNoLongerExists(p),
            ) && p@ == self.path@.absolute,
            has_exec_context(e, CommandType::Executable, self.path@.absolute, args@),
    {
        let p = self.path.absolute().clone();
        self.error(ExecErrorCategory::Filesystem(FilesystemError::PathNoLongerExists(p)), args)
    }

    /// The error when a stream of the process could not be read.
    pub fn stream_failed(&self, e: TerminalError, args: Vec<String>) -> (r: RushError)
        ensures
            is_exec_error(
                r,
                ExecErrorCategory::Terminal(e),
                CommandType::Executable,
                self.path@.absolute,
                args@,
            ),
    {
        self.error(ExecErrorCategory::Terminal(e), args)
    }

    /// The result of a run, from the exit code of the finished process (none
    /// where a signal ended it).
    pub fn finish(&self, code: Option<i32>, args: Vec<String>) -> (r: Result<(), RushError>)
        ensures
            match spec_exit_result(code) {
                Ok(()) => r is Ok,
                Err(k) => r matches Err(e) && is_exec_error(
                    e,
                    ExecErrorCategory::Runtime(k),
                    CommandType::Executable,
                    self.path@.absolute,
                    args@,
                ),
            },
    {
        match exit_result(code) {
            Ok(()) => Ok(()),
            Err(k) => Err(self.error(ExecErrorCategory::Runtime(k), args)),
        }
    }
}

/// The status code of a finished command.
#[derive(Debug, Clone, Copy, PartialEq, Eq, Structural)]
pub struct StatusCode {
    pub code: i32,
}

impl StatusCode {
    /// The status with the given code.
    pub fn new(code: i32) -> (s: StatusCode)
        ensures
            s.code == code,
    {
        StatusCode { code }
    }

    /// The status of a success.
    pub fn success() -> (s: StatusCode)
        ensures
            s.code == 0,
    {
        StatusCode::new(0)
    }

    /// Whether the status is a success.
    pub fn is_success(&self) -> (r: bool)
        ensures
            r == (self.code == 0),
    {
        self.code == 0
    }
}

} // verus!
