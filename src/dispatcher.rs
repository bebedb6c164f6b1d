//! The registry of builtins, and the resolution of a command name to something
//! runnable.
use vstd::prelude::*;

use crate::commands::{Builtin, BuiltinAction, Executable};
use crate::error::{is_eval_error, RushError};
use crate::eval_errors::{DispatchError, EvalError, EvalErrorCategory};
use crate::path::{first_found, resolve_executable, spec_join_path, Path};
use crate::text::{same_text, texts};

verus! {

/// What a command name resolves to.
pub enum Runnable<'a> {
    /// A builtin of the registry.
    Builtin(&'a Builtin),
    /// An external program.
    Executable(Executable),
}

/// Builtin `i` is the first whose true name is `name`.
pub open spec fn first_by_name(cmds: Seq<Builtin>, name: Seq<char>, i: int) -> bool {
    &&& 0 <= i < cmds.len()
    &&& cmds[i].true_name@ == name
    &&& forall|j: int| 0 <= j < i ==> cmds[j].true_name@ != name
}

/// Builtin `i` is the first that has `name` among its aliases.
pub open spec fn first_by_alias(cmds: Seq<Builtin>, name: Seq<char>, i: int) -> bool {
    &&& 0 <= i < cmds.len()
    &&& cmds[i].aliases.spec_contains(name)
    &&& forall|j: int| 0 <= j < i ==> !cmds[j].aliases.spec_contains(name)
}

/// No builtin has `name` as its true name.
pub open spec fn no_true_name(cmds: Seq<Builtin>, name: Seq<char>) -> bool {
    forall|j: int| 0 <= j < cmds.len() ==> cmds[j].true_name@ != name
}

/// `name` resolves to builtin `i`: the first with that true name, or else the
/// first, in registration order, with that alias.
pub open spec fn resolves_to(cmds: Seq<Builtin>, name: Seq<char>, i: int) -> bool {
    first_by_name(cmds, name, i) || (no_true_name(cmds, name) && first_by_alias(cmds, name, i))
}

/// A name resolves to at most one builtin: the first with that true name,
/// or else the first with that alias, in registration order.
pub proof fn lemma_resolution_unique(cmds: Seq<Builtin>, name: Seq<char>, i: int, j: int)
    requires
        resolves_to(cmds, name, i),
        resolves_to(cmds, name, j),
    ensures
        i == j,
{
    if first_by_name(cmds, name, i) && !first_by_name(cmds, name, j) {
        assert(cmds[i].true_name@ == name);
    }
    if first_by_name(cmds, name, j) && !first_by_name(cmds, name, i) {
        assert(cmds[j].true_name@ == name);
    }
}

/// No builtin has `name` as its true name or as an alias.
pub open spec fn unresolved(cmds: Seq<Builtin>, name: Seq<char>) -> bool {
    forall|j: int|
        0 <= j < cmds.len() ==> cmds[j].true_name@ != name && !cmds[j].aliases.spec_contains(name)
}

/// The builtin has this name, these aliases and this work.
pub open spec fn builtin_is(
    b: Builtin,
    name: Seq<char>,
    aliases: Seq<Seq<char>>,
    action: BuiltinAction,
) -> bool {
    &&& b.true_name@ == name
    &&& texts(b.aliases.aliases@) == aliases
    &&& b.action == action
}

/// The text of each string slice.
pub open spec fn str_texts(v: Seq<&str>) -> Seq<Seq<char>> {
    v.map_values(|x: &str| x@)
}

/// A permission mode with an execute bit for owner, group or others.
pub open spec fn has_execute_bit(mode: u32) -> bool {
    mode & 0o111u32 != 0
}

/// The outcome of resolving a command that is no builtin: `found` is the path
/// that the PATH search gave, `mode` the permission bits read from it.
pub open spec fn external_outcome(
    r: Result<Executable, EvalError>,
    name: Seq<char>,
    args: Seq<String>,
    found: Option<Seq<char>>,
    mode: Option<u32>,
    home: Seq<char>,
) -> bool {
    match found {
        None => r matches Err(e) && e.kind matches EvalErrorCategory::Dispatch(
            DispatchError::UnknownCommand(n),
        ) && n@ == name && e.context.command_name@ == name && e.context.command_args@ == args,
        Some(p) => match mode {
            None => r matches Err(e) && e.kind matches EvalErrorCategory::Dispatch(
                DispatchError::FailedToReadMetadata(q),
            ) && q@ == p && e.context.command_name@ == name && e.context.command_args@ == args,
            Some(m) => if has_execute_bit(m) {
                r matches Ok(x) && x.path.well_formed() && x.path@.absolute == p && x.path@.home
                    == home && x.path@.truncation is None
            } else {
                r matches Err(e) && is_eval_error(
                    e,
                    EvalErrorCategory::Dispatch(DispatchError::NotAnExecutable(m)),
                    name,
                    args,
                )
            },
        },
    }
}

/// The text of an optional string.
pub open spec fn opt_text(o: Option<String>) -> Option<Seq<char>> {
    match o {
        Some(s) => Some(s@),
        None => None,
    }
}

/// A resolution seen as the resolution of a command that is no builtin.
pub open spec fn external_part<'a>(r: Result<Runnable<'a>, EvalError>) -> Result<Executable, EvalError> {
    match r {
        Ok(Runnable::Executable(x)) => Ok(x),
        Ok(Runnable::Builtin(_)) => Err(arbitrary()),
        Err(e) => Err(e),
    }
}

/// Decides what a command name that is no builtin resolves to, from the path
/// the PATH search found (if any) and the permission bits read from it (if
/// they could be read).
pub fn external_target(
    name: &str,
    args: Vec<String>,
    found: Option<String>,
    mode: Option<u32>,
    home: &String,
) -> (r: Result<Executable, EvalError>)
    ensures
        external_outcome(r, name@, args@, opt_text(found), mode, home@),
{
    match found {
        None => Err(EvalError::new(DispatchError::UnknownCommand(name.to_owned()), name, args)),
        Some(p) => match mode {
            None => Err(EvalError::new(DispatchError::FailedToReadMetadata(p), name, args)),
            Some(m) => {
                if m & 0o111u32 == 0 {
                    Err(EvalError::new(DispatchError::NotAnExecutable(m), name, args))
                } else {
                    match Path::new(p, home) {
                        Ok(path) => Ok(Executable::new(path)),
                        Err(_) => unreached(),
                    }
                }
            },
        },
    }
}

/// Command `i` is the first that failed.
pub open spec fn first_failed(results: Seq<Result<(), RushError>>, i: int) -> bool {
    &&& 0 <= i < results.len()
    &&& results[i] is Err
    &&& forall|j: int| 0 <= j < i ==> results[j] is Ok
}

/// The result of a line whose commands all ran: the first error, in the order
/// of the commands, or success where none failed.
pub fn first_failure(results: Vec<Result<(), RushError>>) -> (r: Result<(), RushError>)
    ensures
        (forall|i: int| 0 <= i < results@.len() ==> results@[i] is Ok) ==> r is Ok,
        forall|i: int| first_failed(results@, i) ==> r == results@[i],
{
    let ghost all = results@;
    let mut rest = results;
    let mut r: Result<(), RushError> = Ok(());
    while rest.len() > 0
        invariant
            rest@ == all.take(rest@.len() as int),
            rest@.len() <= all.len(),
            (forall|i: int| rest@.len() <= i < all.len() ==> all[i] is Ok) ==> r is Ok,
            forall|i: int|
                rest@.len() <= i < all.len() && all[i] is Err && (forall|j: int|
                    rest@.len() <= j < i ==> all[j] is Ok) ==> r == all[i],
        decreases rest.len(),
    {
        let x = rest.pop().unwrap();
        let k = rest.len();
        proof {
            assert(all[k as int] == x);
            assert(rest@ =~= all.take(k as int));
        }
        if x.is_err() {
            r = x;
        }
    }
    proof {
        assert forall|i: int| first_failed(all, i) implies r == all[i] by {
            assert(rest@.len() == 0);
        }
    }
    r
}

/// The builtins that the shell knows, in the order they were registered.
pub struct Dispatcher {
    pub commands: Vec<Builtin>,
}

impl Dispatcher {
    /// A registry with no builtins.
    pub fn new() -> (d: Dispatcher)
        ensures
            d.commands@.len() == 0,
    {
        Dispatcher { commands: Vec::new() }
    }

    /// Registers a builtin after those already there.
    pub fn add_builtin(&mut self, true_name: &str, aliases: Vec<&str>, action: BuiltinAction)
        ensures
            final(self).commands@.len() == old(self).commands@.len() + 1,
            forall|j: int|
                0 <= j < old(self).commands@.len() ==> final(self).commands@[j] == old(self).commands@[j],
            builtin_is(
                final(self).commands@.last(),
                true_name@,
                str_texts(aliases@),
                action,
            ),
    {
        let mut names: Vec<String> = Vec::new();
        let mut i: usize = 0;
        while i < aliases.len()
            invariant
                i <= aliases@.len(),
                names@.len() == i,
                forall|j: int| 0 <= j < i ==> names@[j]@ == aliases@[j]@,
            decreases aliases.len() - i,
        {
            names.push(aliases[i].to_owned());
            i = i + 1;
        }
        assert(texts(names@) =~= str_texts(aliases@));
        let b = Builtin::new(true_name, names, action);
        self.commands.push(b);
    }

    /// Finds a builtin by name: the first whose true name is `command_name`,
    /// or else the first, in registration order, with it as an alias; none if
    /// no builtin has that name or alias.
    pub fn resolve(&self, command_name: &str) -> (r: Option<&Builtin>)
        ensures
            match r {
                Some(b) => exists|i: int|
                    resolves_to(self.commands@, command_name@, i) && *b == self.commands@[i],
                None => unresolved(self.commands@, command_name@),
            },
    {
        let mut i: usize = 0;
        while i < self.commands.len()
            invariant
                i <= self.commands@.len(),
                forall|j: int| 0 <= j < i ==> self.commands@[j].true_name@ != command_name@,
            decreases self.commands.len() - i,
        {
            if same_text(self.commands[i].true_name.as_str(), command_name) {
                assert(resolves_to(self.commands@, command_name@, i as int));
                return Some(&self.commands[i]);
            }
            i = i + 1;
        }
        let mut k: usize = 0;
        while k < self.commands.len()
            invariant
                k <= self.commands@.len(),
                no_true_name(self.commands@, command_name@),
                forall|j: int| 0 <= j < k ==> !self.commands@[j].aliases.spec_contains(command_name@),
            decreases self.commands.len() - k,
        {
            if self.commands[k].aliases.contains(command_name) {
                assert(resolves_to(self.commands@, command_name@, k as int));
                return Some(&self.commands[k]);
            }
            k = k + 1;
        }
        None
    }

    /// Resolves a command name: a builtin of the registry, else the file under
    /// the first PATH directory where it exists (`exists[i]` tells whether it
    /// exists under `path[i]`), provided its permission bits `mode` (none if
    /// they could not be read) carry an execute bit.
    pub fn dispatch<'a>(
        &'a self,
        command_name: &str,
        command_args: Vec<String>,
        path: &Vec<String>,
        exists: &Vec<bool>,
        mode: Option<u32>,
        home: &String,
    ) -> (r: Result<Runnable<'a>, EvalError>)
        requires
            exists@.len() == path@.len(),
        ensures
            !unresolved(self.commands@, command_name@) ==> (r matches Ok(Runnable::Builtin(b))
                && exists|i: int| resolves_to(self.commands@, command_name@, i) && *b == self.commands@[i]),
            unresolved(self.commands@, command_name@) && (forall|i: int|
                0 <= i < exists@.len() ==> !exists@[i]) ==> external_outcome(
                external_part(r),
                command_name@,
                command_args@,
                None,
                mode,
                home@,
            ) && !(r matches Ok(Runnable::Builtin(_))),
            forall|i: int|
                unresolved(self.commands@, command_name@) && first_found(exists@, i)
                    ==> external_outcome(
                    external_part(r),
                    command_name@,
                    command_args@,
                    Some(spec_join_path(path@[i]@, command_name@)),
                    mode,
                    home@,
                ) && !(r matches Ok(Runnable::Builtin(_))),
    {
        match self.resolve(command_name) {
            Some(b) => Ok(Runnable::Builtin(b)),
            None => {
                let found = resolve_executable(command_name, path, exists);
                proof {
                    assert forall|i: int| first_found(exists@, i) implies found matches Some(p) && p@
                        == spec_join_path(path@[i]@, command_name@) by {
                        if found is Some {
                            let j = choose|j: int|
                                first_found(exists@, j) && found->0@ == spec_join_path(
                                    path@[j]@,
                                    command_name@,
                                );
                            if j < i {
                                assert(!exists@[j]);
                            }
                            if i < j {
                                assert(!exists@[i]);
                            }
                        }
                    }
                }
                match external_target(command_name, command_args, found, mode, home) {
                    Ok(x) => Ok(Runnable::Executable(x)),
                    Err(e) => Err(e),
                }
            },
        }
    }
}

impl Default for Dispatcher {
    /// The registry of the shell's builtins, with their aliases.
    fn default() -> (d: Dispatcher)
        ensures
            d.commands@.len() == 16,
            builtin_is(d.commands@[0], "test"@, seq!["t"@], BuiltinAction::Test),
            builtin_is(d.commands@[1], "exit"@, seq!["quit"@, "q"@], BuiltinAction::Exit),
            builtin_is(d.commands@[2], "working-directory"@, seq!["pwd"@, "wd"@], BuiltinAction::WorkingDirectory),
            builtin_is(d.commands@[3], "change-directory"@, seq!["cd"@], BuiltinAction::ChangeDirectory),
            builtin_is(d.commands@[4], "list-directory"@, seq!["directory"@, "list"@, "ls"@, "dir"@], BuiltinAction::ListDirectory),
            builtin_is(d.commands@[5], "previous-directory"@, seq!["back"@, "b"@, "prev"@, "pd"@], BuiltinAction::PreviousDirectory),
            builtin_is(d.commands@[6], "next-directory"@, seq!["forward"@, "f"@, "next"@, "nd"@], BuiltinAction::NextDirectory),
            builtin_is(d.commands@[7], "clear-terminal"@, seq!["clear"@, "cls"@], BuiltinAction::ClearTerminal),
            builtin_is(d.commands@[8], "make-file"@, seq!["create"@, "touch"@, "new"@, "mf"@], BuiltinAction::MakeFile),
            builtin_is(d.commands@[9], "make-directory"@, seq!["mkdir"@, "md"@], BuiltinAction::MakeDirectory),
            builtin_is(d.commands@[10], "delete-file"@, seq!["delete"@, "remove"@, "rm"@, "del"@, "df"@], BuiltinAction::DeleteFile),
            builtin_is(d.commands@[11], "read-file"@, seq!["read"@, "cat"@, "rf"@], BuiltinAction::ReadFile),
            builtin_is(d.commands@[12], "run-executable"@, seq!["run"@, "exec"@, "re"@], BuiltinAction::RunExecutable),
            builtin_is(d.commands@[13], "configure"@, seq!["config"@, "conf"@], BuiltinAction::Configure),
            builtin_is(d.commands@[14], "environment-variable"@, seq!["environment"@, "env"@, "ev"@], BuiltinAction::EnvironmentVariable),
            builtin_is(d.commands@[15], "edit-path"@, seq!["path"@, "ep"@], BuiltinAction::EditPath),
    {
        let mut d = Dispatcher::new();
        let a = vec!["t"];
        assert(str_texts(a@) =~= seq!["t"@]);
        d.add_builtin("test", a, BuiltinAction::Test);
        let a = vec!["quit", "q"];
        assert(str_texts(a@) =~= seq!["quit"@, "q"@]);
        d.add_builtin("exit", a, BuiltinAction::Exit);
        let a = vec!["pwd", "wd"];
        assert(str_texts(a@) =~= seq!["pwd"@, "wd"@]);
        d.add_builtin("working-directory", a, BuiltinAction::WorkingDirectory);
        let a = vec!["cd"];
        assert(str_texts(a@) =~= seq!["cd"@]);
        d.add_builtin("change-directory", a, BuiltinAction::ChangeDirectory);
        let a = vec!["directory", "list", "ls", "dir"];
        assert(str_texts(a@) =~= seq!["directory"@, "list"@, "ls"@, "dir"@]);
        d.add_builtin("list-directory", a, BuiltinAction::ListDirectory);
        let a = vec!["back", "b", "prev", "pd"];
        assert(str_texts(a@) =~= seq!["back"@, "b"@, "prev"@, "pd"@]);
        d.add_builtin("previous-directory", a, BuiltinAction::PreviousDirectory);
        let a = vec!["forward", "f", "next", "nd"];
        assert(str_texts(a@) =~= seq!["forward"@, "f"@, "next"@, "nd"@]);
        d.add_builtin("next-directory", a, BuiltinAction::NextDirectory);
        let a = vec!["clear", "cls"];
        assert(str_texts(a@) =~= seq!["clear"@, "cls"@]);
        d.add_builtin("clear-terminal", a, BuiltinAction::ClearTerminal);
        let a = vec!["create", "touch", "new", "mf"];
        assert(str_texts(a@) =~= seq!["create"@, "touch"@, "new"@, "mf"@]);
        d.add_builtin("make-file", a, BuiltinAction::MakeFile);
        let a = vec!["mkdir", "md"];
        assert(str_texts(a@) =~= seq!["mkdir"@, "md"@]);
        d.add_builtin("make-directory", a, BuiltinAction::MakeDirectory);
        let a = vec!["delete", "remove", "rm", "del", "df"];
        assert(str_texts(a@) =~= seq!["delete"@, "remove"@, "rm"@, "del"@, "df"@]);
        d.add_builtin("delete-file", a, BuiltinAction::DeleteFile);
        let a = vec!["read", "cat", "rf"];
        assert(str_texts(a@) =~= seq!["read"@, "cat"@, "rf"@]);
        d.add_builtin("read-file", a, BuiltinAction::ReadFile);
        let a = vec!["run", "exec", "re"];
        assert(str_texts(a@) =~= seq!["run"@, "exec"@, "re"@]);
        d.add_builtin("run-executable", a, BuiltinAction::RunExecutable);
        let a = vec!["config", "conf"];
        assert(str_texts(a@) =~= seq!["config"@, "conf"@]);
        d.add_builtin("configure", a, BuiltinAction::Configure);
        let a = vec!["environment", "env", "ev"];
        assert(str_texts(a@) =~= seq!["environment"@, "env"@, "ev"@]);
        d.add_builtin("environment-variable", a, BuiltinAction::EnvironmentVariable);
        let a = vec!["path", "ep"];
        assert(str_texts(a@) =~= seq!["path"@, "ep"@]);
        d.add_builtin("edit-path", a, BuiltinAction::EditPath);
        d
    }
}

} // verus!
