//! The error of either layer, and the layout shared by both.
use vstd::prelude::*;

use crate::eval_errors::{DispatchError, EvalError, EvalErrorCategory};
use crate::exec_errors::{CommandType, ExecError, ExecErrorCategory};
use crate::text::{indented, push_indented};

verus! {

/// The layout of an error: the error block, then the context block, each line indented.
pub open spec fn error_text(kind: Seq<char>, context: Seq<char>) -> Seq<char> {
    "[ERROR]:\n"@ + indented(kind) + "[CONTEXT]:\n"@ + indented(context)
}

/// Lays out an error from the text of its kind and the text of its context.
pub fn error_fmt(kind: &str, context: &str) -> (r: String)
    ensures
        r@ == error_text(kind@, context@),
{
    let mut r = String::new();
    r.append("[ERROR]:\n");
    push_indented(&mut r, kind);
    r.append("[CONTEXT]:\n");
    push_indented(&mut r, context);
    r
}

/// The dispatch-layer error has this kind and concerns this command.
pub open spec fn is_eval_error(
    e: EvalError,
    kind: EvalErrorCategory,
    name: Seq<char>,
    args: Seq<String>,
) -> bool {
    &&& e.kind == kind
    &&& e.context.command_name@ == name
    &&& e.context.command_args@ == args
}

/// The error is of the execution layer, has this kind, and concerns this command.
pub open spec fn is_exec_error(
    e: RushError,
    kind: ExecErrorCategory,
    command_type: CommandType,
    name: Seq<char>,
    args: Seq<String>,
) -> bool {
    &&& e matches RushError::Exec(x)
    &&& x.kind == kind
    &&& x.context.command_type == command_type
    &&& x.context.command_name@ == name
    &&& x.context.command_args@ == args
}

/// The error is of the execution layer and concerns this command.
pub open spec fn has_exec_context(
    e: RushError,
    command_type: CommandType,
    name: Seq<char>,
    args: Seq<String>,
) -> bool {
    &&& e matches RushError::Exec(x)
    &&& x.context.command_type == command_type
    &&& x.context.command_name@ == name
    &&& x.context.command_args@ == args
}

/// An error of the dispatch layer or of the execution layer.
#[derive(Debug, PartialEq, Eq)]
pub enum RushError {
    Eval(EvalError),
    Exec(ExecError),
}

impl From<EvalError> for RushError {
    fn from(e: EvalError) -> (r: RushError) {
        RushError::Eval(e)
    }
}

impl vstd::std_specs::convert::FromSpecImpl<EvalError> for RushError {
    open spec fn obeys_from_spec() -> bool {
        true
    }

    open spec fn from_spec(e: EvalError) -> RushError {
        RushError::Eval(e)
    }
}

impl From<ExecError> for RushError {
    fn from(e: ExecError) -> (r: RushError) {
        RushError::Exec(e)
    }
}

impl vstd::std_specs::convert::FromSpecImpl<ExecError> for RushError {
    open spec fn obeys_from_spec() -> bool {
        true
    }

    open spec fn from_spec(e: ExecError) -> RushError {
        RushError::Exec(e)
    }
}

impl RushError {
    /// The full text of the error.
    pub open spec fn spec_text(&self) -> Seq<char> {
        match self {
            RushError::Eval(e) => e.spec_text(),
            RushError::Exec(e) => e.spec_text(),
        }
    }

    /// The full text of the error.
    pub fn render(&self) -> (r: String)
        ensures
            r@ == self.spec_text(),
    {
        match self {
            RushError::Eval(e) => e.render(),
            RushError::Exec(e) => e.render(),
        }
    }

    /// The command name, where the error is that no command of that name was found.
    pub fn command_name_if_unknown(&self) -> (r: Option<&str>)
        ensures
            match self {
                RushError::Eval(e) => match e.kind {
                    EvalErrorCategory::Dispatch(DispatchError::UnknownCommand(name)) => r is Some
                        && r->0@ == name@,
                    _ => r is None,
                },
                RushError::Exec(_) => r is None,
            },
    {
        match self {
            RushError::Eval(e) => match &e.kind {
                EvalErrorCategory::Dispatch(d) => match d {
                    DispatchError::UnknownCommand(name) => Some(name.as_str()),
                    _ => None,
                },
            },
            _ => None,
        }
    }
}

} // verus!
