//! Errors of the dispatch layer: resolving a command name to something runnable.
use vstd::prelude::*;

use crate::error::{error_fmt, error_text};
use crate::text::{decimal, join, push_decimal, push_joined, texts};

verus! {

/// A kind of dispatch-layer error: it knows the category it belongs to.
pub trait EvalErrorKind: Sized {
    spec fn spec_category(&self) -> EvalErrorCategory;

    fn into_category(self) -> (c: EvalErrorCategory)
        ensures
            c == self.spec_category(),
    ;
}

/// An error raised while resolving a command, with the command it concerns.
#[derive(Debug, PartialEq, Eq)]
pub struct EvalError {
    pub kind: EvalErrorCategory,
    pub context: EvalErrorContext,
}

/// The command that a dispatch-layer error concerns.
#[derive(Debug, PartialEq, Eq)]
pub struct EvalErrorContext {
    pub command_name: String,
    pub command_args: Vec<String>,
}

/// The categories of dispatch-layer errors.
#[derive(Debug, PartialEq, Eq)]
pub enum EvalErrorCategory {
    Dispatch(DispatchError),
}

/// Why a command name could not be turned into something runnable.
#[derive(Debug, PartialEq, Eq)]
pub enum DispatchError {
    /// Neither a builtin nor a file in any PATH directory has this name.
    UnknownCommand(String),
    /// The file has no execute bit; its permission bits as read.
    NotAnExecutable(u32),
    /// The metadata of this path could not be read.
    FailedToReadMetadata(String),
}

impl EvalErrorKind for DispatchError {
    open spec fn spec_category(&self) -> EvalErrorCategory {
        EvalErrorCategory::Dispatch(*self)
    }

    fn into_category(self) -> (c: EvalErrorCategory) {
        EvalErrorCategory::from(self)
    }
}

impl From<DispatchError> for EvalErrorCategory {
    fn from(e: DispatchError) -> (c: EvalErrorCategory) {
        EvalErrorCategory::Dispatch(e)
    }
}

impl vstd::std_specs::convert::FromSpecImpl<DispatchError> for EvalErrorCategory {
    open spec fn obeys_from_spec() -> bool {
        true
    }

    open spec fn from_spec(e: DispatchError) -> EvalErrorCategory {
        EvalErrorCategory::Dispatch(e)
    }
}

impl DispatchError {
    /// The message that describes this error.
    pub open spec fn spec_message(&self) -> Seq<char> {
        match self {
            DispatchError::UnknownCommand(name) => "Command name '"@ + name@
                + "' not found as a builtin or an executable in PATH"@,
            DispatchError::NotAnExecutable(perms) => "File lacks executable permissions. Current permissions: "@
                + decimal(*perms as nat),
            DispatchError::FailedToReadMetadata(name) => "Command metadata for '"@ + name@
                + "' could not be read"@,
        }
    }

    /// The message that describes this error.
    pub fn message(&self) -> (r: String)
        ensures
            r@ == self.spec_message(),
    {
        let mut r = String::new();
        match self {
            DispatchError::UnknownCommand(name) => {
                r.append("Command name '");
                r.append(name.as_str());
                r.append("' not found as a builtin or an executable in PATH");
            },
            DispatchError::NotAnExecutable(perms) => {
                r.append("File lacks executable permissions. Current permissions: ");
                push_decimal(&mut r, *perms as u64);
            },
            DispatchError::FailedToReadMetadata(name) => {
                r.append("Command metadata for '");
                r.append(name.as_str());
                r.append("' could not be read");
            },
        }
        r
    }
}

impl EvalErrorCategory {
    /// The category line and the message line.
    pub open spec fn spec_text(&self) -> Seq<char> {
        match self {
            EvalErrorCategory::Dispatch(e) => "[CATEGORY]: Dispatch\n[MESSAGE]: "@ + e.spec_message(),
        }
    }

    /// The category line and the message line.
    pub fn render(&self) -> (r: String)
        ensures
            r@ == self.spec_text(),
    {
        let mut r = String::new();
        match self {
            EvalErrorCategory::Dispatch(e) => {
                r.append("[CATEGORY]: Dispatch\n[MESSAGE]: ");
                let m = e.message();
                r.append(m.as_str());
            },
        }
        r
    }
}

impl EvalErrorContext {
    /// The command line and the arguments line, the arguments joined by spaces.
    pub open spec fn spec_text(&self) -> Seq<char> {
        "[COMMAND]: "@ + self.command_name@ + "\n[ARGUMENTS]: "@ + join(
            texts(self.command_args@),
            " "@,
        )
    }

    /// The command line and the arguments line, the arguments joined by spaces.
    pub fn render(&self) -> (r: String)
        ensures
            r@ == self.spec_text(),
    {
        let mut r = String::new();
        r.append("[COMMAND]: ");
        r.append(self.command_name.as_str());
        r.append("\n[ARGUMENTS]: ");
        push_joined(&mut r, &self.command_args, " ");
        r
    }
}

impl EvalError {
    /// An error of the given kind about the command `command_name` run with `command_args`.
    pub fn new<K: EvalErrorKind>(kind: K, command_name: &str, command_args: Vec<String>) -> (e:
        EvalError)
        ensures
            e.kind == kind.spec_category(),
            e.context.command_name@ == command_name@,
            e.context.command_args@ == command_args@,
    {
        EvalError {
            kind: kind.into_category(),
            context: EvalErrorContext { command_name: command_name.to_owned(), command_args },
        }
    }

    /// The full text: the error block, then the context block.
    pub open spec fn spec_text(&self) -> Seq<char> {
        error_text(self.kind.spec_text(), self.context.spec_text())
    }

    /// The full text: the error block, then the context block.
    pub fn render(&self) -> (r: String)
        ensures
            r@ == self.spec_text(),
    {
        let k = self.kind.render();
        let c = self.context.render();
        error_fmt(k.as_str(), c.as_str())
    }
}

} // verus!
