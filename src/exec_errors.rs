//! Errors of the execution layer: running a builtin or an executable.
use vstd::prelude::*;

use crate::error::{error_fmt, error_text};
use crate::text::{decimal, join, push_decimal, push_joined, push_signed_decimal, signed_decimal, texts};

verus! {

/// A kind of execution-layer error: it knows the category it belongs to.
pub trait ExecErrorKind: Sized {
    spec fn spec_category(&self) -> ExecErrorCategory;

    fn into_category(self) -> (c: ExecErrorCategory)
        ensures
            c == self.spec_category(),
    ;
}

/// An error raised while running a command, with the command it concerns.
#[derive(Debug, PartialEq, Eq)]
pub struct ExecError {
    pub kind: ExecErrorCategory,
    pub context: ExecErrorContext,
}

/// The command that an execution-layer error concerns.
#[derive(Debug, PartialEq, Eq)]
pub struct ExecErrorContext {
    pub command_type: CommandType,
    pub command_name: String,
    pub command_args: Vec<String>,
}

/// Whether a command runs in the shell's process or as a process of its own.
#[derive(Debug, Clone, Copy, PartialEq, Eq, Structural)]
pub enum CommandType {
    Builtin,
    Executable,
}

/// The categories of execution-layer errors.
#[derive(Debug, PartialEq, Eq)]
pub enum ExecErrorCategory {
    Argument(ArgumentError),
    Runtime(RuntimeError),
    Filesystem(FilesystemError),
    Terminal(TerminalError),
}

/// The arguments of a command do not fit it.
#[derive(Debug, PartialEq, Eq)]
pub enum ArgumentError {
    /// The expected count of arguments, and the count given.
    InvalidArgumentCount(usize, usize),
    InvalidArgument(String),
    InvalidValue(String),
}

/// The output of an executable could not be read.
#[derive(Debug, PartialEq, Eq)]
pub enum TerminalError {
    FailedToParseStdout(String),
    FailedToParseStderr(String),
}

/// A filesystem object could not be read, or is gone.
#[derive(Debug, PartialEq, Eq)]
pub enum FilesystemError {
    FailedToReadFileType(String),
    FailedToReadFileName(String),
    FailedToReadDirectory(String),
    PathNoLongerExists(String),
}

/// A command ran and failed.
#[derive(Debug, PartialEq, Eq)]
pub enum RuntimeError {
    /// An executable ended with this exit code.
    FailedToExecute(isize),
    /// A builtin could not do its work.
    FailedToRun,
}

impl ExecErrorKind for ArgumentError {
    open spec fn spec_category(&self) -> ExecErrorCategory {
        ExecErrorCategory::Argument(*self)
    }

    fn into_category(self) -> (c: ExecErrorCategory) {
        ExecErrorCategory::from(self)
    }
}

impl ExecErrorKind for TerminalError {
    open spec fn spec_category(&self) -> ExecErrorCategory {
        ExecErrorCategory::Terminal(*self)
    }

    fn into_category(self) -> (c: ExecErrorCategory) {
        ExecErrorCategory::from(self)
    }
}

impl ExecErrorKind for FilesystemError {
    open spec fn spec_category(&self) -> ExecErrorCategory {
        ExecErrorCategory::Filesystem(*self)
    }

    fn into_category(self) -> (c: ExecErrorCategory) {
        ExecErrorCategory::from(self)
    }
}

impl ExecErrorKind for RuntimeError {
    open spec fn spec_category(&self) -> ExecErrorCategory {
        ExecErrorCategory::Runtime(*self)
    }

    fn into_category(self) -> (c: ExecErrorCategory) {
        ExecErrorCategory::from(self)
    }
}

impl From<ArgumentError> for ExecErrorCategory {
    fn from(e: ArgumentError) -> (c: ExecErrorCategory) {
        ExecErrorCategory::Argument(e)
    }
}

impl vstd::std_specs::convert::FromSpecImpl<ArgumentError> for ExecErrorCategory {
    open spec fn obeys_from_spec() -> bool {
        true
    }

    open spec fn from_spec(e: ArgumentError) -> ExecErrorCategory {
        ExecErrorCategory::Argument(e)
    }
}

impl From<TerminalError> for ExecErrorCategory {
    fn from(e: TerminalError) -> (c: ExecErrorCategory) {
        ExecErrorCategory::Terminal(e)
    }
}

impl vstd::std_specs::convert::FromSpecImpl<TerminalError> for ExecErrorCategory {
    open spec fn obeys_from_spec() -> bool {
        true
    }

    open spec fn from_spec(e: TerminalError) -> ExecErrorCategory {
        ExecErrorCategory::Terminal(e)
    }
}

impl From<FilesystemError> for ExecErrorCategory {
    fn from(e: FilesystemError) -> (c: ExecErrorCategory) {
        ExecErrorCategory::Filesystem(e)
    }
}

impl vstd::std_specs::convert::FromSpecImpl<FilesystemError> for ExecErrorCategory {
    open spec fn obeys_from_spec() -> bool {
        true
    }

    open spec fn from_spec(e: FilesystemError) -> ExecErrorCategory {
        ExecErrorCategory::Filesystem(e)
    }
}

impl From<RuntimeError> for ExecErrorCategory {
    fn from(e: RuntimeError) -> (c: ExecErrorCategory) {
        ExecErrorCategory::Runtime(e)
    }
}

impl vstd::std_specs::convert::FromSpecImpl<RuntimeError> for ExecErrorCategory {
    open spec fn obeys_from_spec() -> bool {
        true
    }

    open spec fn from_spec(e: RuntimeError) -> ExecErrorCategory {
        ExecErrorCategory::Runtime(e)
    }
}

impl CommandType {
    /// The name of the command type.
    pub open spec fn spec_text(&self) -> Seq<char> {
        match self {
            CommandType::Builtin => "Builtin"@,
            CommandType::Executable => "Executable"@,
        }
    }

    /// The name of the command type.
    pub fn render(&self) -> (r: String)
        ensures
            r@ == self.spec_text(),
    {
        match self {
            CommandType::Builtin => "Builtin".to_owned(),
            CommandType::Executable => "Executable".to_owned(),
        }
    }
}

impl ArgumentError {
    /// The message that describes this error.
    pub open spec fn spec_message(&self) -> Seq<char> {
        match self {
            ArgumentError::InvalidArgumentCount(expected, actual) => "Expected "@ + decimal(
                *expected as nat,
            ) + " arguments, got "@ + decimal(*actual as nat),
            ArgumentError::InvalidArgument(arg) => "Invalid argument: "@ + arg@,
            ArgumentError::InvalidValue(value) => "Invalid value: "@ + value@,
        }
    }

    /// The message that describes this error.
    pub fn message(&self) -> (r: String)
        ensures
            r@ == self.spec_message(),
    {
        let mut r = String::new();
        match self {
            ArgumentError::InvalidArgumentCount(expected, actual) => {
                r.append("Expected ");
                push_decimal(&mut r, *expected as u64);
                r.append(" arguments, got ");
                push_decimal(&mut r, *actual as u64);
            },
            ArgumentError::InvalidArgument(arg) => {
                r.append("Invalid argument: ");
                r.append(arg.as_str());
            },
            ArgumentError::InvalidValue(value) => {
                r.append("Invalid value: ");
                r.append(value.as_str());
            },
        }
        r
    }
}

impl TerminalError {
    /// The message that describes this error.
    pub open spec fn spec_message(&self) -> Seq<char> {
        match self {
            TerminalError::FailedToParseStdout(detail) => "Failed to parse stdout: "@ + detail@,
            TerminalError::FailedToParseStderr(detail) => "Failed to parse stderr: "@ + detail@,
        }
    }

    /// The message that describes this error.
    pub fn message(&self) -> (r: String)
        ensures
            r@ == self.spec_message(),
    {
        let mut r = String::new();
        match self {
            TerminalError::FailedToParseStdout(detail) => {
                r.append("Failed to parse stdout: ");
                r.append(detail.as_str());
            },
            TerminalError::FailedToParseStderr(detail) => {
                r.append("Failed to parse stderr: ");
                r.append(detail.as_str());
            },
        }
        r
    }
}

impl FilesystemError {
    /// The message that describes this error.
    pub open spec fn spec_message(&self) -> Seq<char> {
        match self {
            FilesystemError::FailedToReadFileType(path) => "Failed to read file type: "@ + path@,
            FilesystemError::FailedToReadFileName(path) => "Failed to read file name: "@ + path@,
            FilesystemError::FailedToReadDirectory(path) => "Failed to read directory: "@ + path@,
            FilesystemError::PathNoLongerExists(path) => "Previously-valid path no longer exists: "@
                + path@,
        }
    }

    /// The message that describes this error.
    pub fn message(&self) -> (r: String)
        ensures
            r@ == self.spec_message(),
    {
        let mut r = String::new();
        match self {
            FilesystemError::FailedToReadFileType(path) => {
                r.append("Failed to read file type: ");
                r.append(path.as_str());
            },
            FilesystemError::FailedToReadFileName(path) => {
                r.append("Failed to read file name: ");
                r.append(path.as_str());
            },
            FilesystemError::FailedToReadDirectory(path) => {
                r.append("Failed to read directory: ");
                r.append(path.as_str());
            },
            FilesystemError::PathNoLongerExists(path) => {
                r.append("Previously-valid path no longer exists: ");
                r.append(path.as_str());
            },
        }
        r
    }
}

impl RuntimeError {
    /// The message that describes this error.
    pub open spec fn spec_message(&self) -> Seq<char> {
        match self {
            RuntimeError::FailedToExecute(code) => "Executable failed to run with exit code: "@
                + signed_decimal(*code as int),
            RuntimeError::FailedToRun => "Failed to run builtin for some reason"@,
        }
    }

    /// The message that describes this error.
    pub fn message(&self) -> (r: String)
        ensures
            r@ == self.spec_message(),
    {
        let mut r = String::new();
        match self {
            RuntimeError::FailedToExecute(code) => {
                r.append("Executable failed to run with exit code: ");
                push_signed_decimal(&mut r, *code as i64);
            },
            RuntimeError::FailedToRun => {
                r.append("Failed to run builtin for some reason");
            },
        }
        r
    }
}

impl ExecErrorCategory {
    /// The name of the category.
    pub open spec fn spec_name(&self) -> Seq<char> {
        match self {
            ExecErrorCategory::Argument(_) => "Argument"@,
            ExecErrorCategory::Runtime(_) => "Runtime"@,
            ExecErrorCategory::Filesystem(_) => "Filesystem"@,
            ExecErrorCategory::Terminal(_) => "Terminal"@,
        }
    }

    /// The message of the error within the category.
    pub open spec fn spec_message(&self) -> Seq<char> {
        match self {
            ExecErrorCategory::Argument(e) => e.spec_message(),
            ExecErrorCategory::Runtime(e) => e.spec_message(),
            ExecErrorCategory::Filesystem(e) => e.spec_message(),
            ExecErrorCategory::Terminal(e) => e.spec_message(),
        }
    }

    /// The category line and the message line.
    pub open spec fn spec_text(&self) -> Seq<char> {
        "[CATEGORY]: "@ + self.spec_name() + "\n[MESSAGE]: "@ + self.spec_message()
    }

    /// The category line and the message line.
    pub fn render(&self) -> (r: String)
        ensures
            r@ == self.spec_text(),
    {
        let mut r = String::new();
        r.append("[CATEGORY]: ");
        let m = match self {
            ExecErrorCategory::Argument(e) => {
                r.append("Argument");
                e.message()
            },
            ExecErrorCategory::Runtime(e) => {
                r.append("Runtime");
                e.message()
            },
            ExecErrorCategory::Filesystem(e) => {
                r.append("Filesystem");
                e.message()
            },
            ExecErrorCategory::Terminal(e) => {
                r.append("Terminal");
                e.message()
            },
        };
        r.append("\n[MESSAGE]: ");
        r.append(m.as_str());
        r
    }
}

impl ExecErrorContext {
    /// The type, command and arguments lines, each ended by a newline; the
    /// arguments joined by ", ".
    pub open spec fn spec_text(&self) -> Seq<char> {
        "[TYPE]: "@ + self.command_type.spec_text() + "\n[COMMAND]: "@ + self.command_name@
            + "\n[ARGUMENTS]: "@ + join(texts(self.command_args@), ", "@) + "\n"@
    }

    /// The type, command and arguments lines.
    pub fn render(&self) -> (r: String)
        ensures
            r@ == self.spec_text(),
    {
        let mut r = String::new();
        r.append("[TYPE]: ");
        let t = self.command_type.render();
        r.append(t.as_str());
        r.append("\n[COMMAND]: ");
        r.append(self.command_name.as_str());
        r.append("\n[ARGUMENTS]: ");
        push_joined(&mut r, &self.command_args, ", ");
        r.append("\n");
        r
    }
}

impl ExecError {
    /// An error of the given kind about the command `command_name` of type
    /// `command_type`, run with `command_args`.
    pub fn new<K: ExecErrorKind>(
        kind: K,
        command_type: CommandType,
        command_name: &str,
        command_args: Vec<String>,
    ) -> (e: ExecError)
        ensures
            e.kind == kind.spec_category(),
            e.context.command_type == command_type,
            e.context.command_name@ == command_name@,
            e.context.command_args@ == command_args@,
    {
        ExecError {
            kind: kind.into_category(),
            context: ExecErrorContext {
                command_type,
                command_name: command_name.to_owned(),
                command_args,
            },
        }
    }

    /// The full text: the error block, then the context block.
    pub open spec fn spec_text(&self) -> Seq<char> {
        error_text(self.kind.spec_text(), self.context.spec_text())
    }

    /// The full text: the error block, then the context block.
    pub fn render(&self) -> (r: String)
        ensures
            r@ == self.spec_text(),
    {
        let k = self.kind.render();
        let c = self.context.render();
        error_fmt(k.as_str(), c.as_str())
    }
}

} // verus!
