//! What the builtins decide from their arguments, before the shell does the work.
use vstd::prelude::*;

use crate::config::Configuration;
use crate::exec_errors::ArgumentError;
use crate::parse::{parse_bool, parse_usize, spec_parse_bool, spec_parse_usize};
use crate::text::same_text;

verus! {

/// Why a builtin refuses its arguments: the error, and the line shown to the user.
#[derive(Debug, PartialEq, Eq)]
pub struct Refusal {
    pub kind: ArgumentError,
    pub message: String,
}

/// The message `prefix'x'`.
pub open spec fn quoted(prefix: Seq<char>, x: Seq<char>) -> Seq<char> {
    prefix + "'"@ + x + "'"@
}

fn make_quoted(prefix: &str, x: &str) -> (r: String)
    ensures
        r@ == quoted(prefix@, x@),
{
    let mut r = prefix.to_owned();
    r.append("'");
    r.append(x);
    r.append("'");
    r
}

/// The refusal is an invalid value `value`, shown as `prefix'value'`.
pub open spec fn refuses_value(f: Refusal, prefix: Seq<char>, value: Seq<char>) -> bool {
    f.kind matches ArgumentError::InvalidValue(v) && v@ == value && f.message@ == quoted(
        prefix,
        value,
    )
}

/// The refusal is an invalid argument `arg`, shown as `prefix'arg'`.
pub open spec fn refuses_argument(f: Refusal, prefix: Seq<char>, arg: Seq<char>) -> bool {
    f.kind matches ArgumentError::InvalidArgument(a) && a@ == arg && f.message@ == quoted(
        prefix,
        arg,
    )
}

/// A change of one setting.
#[derive(Debug, Clone, Copy, PartialEq, Eq, Structural)]
pub enum Setting {
    Truncation(Option<usize>),
    HistoryLimit(Option<usize>),
    ShowErrors(bool),
}

/// A limit written as text: "false" for none, else a count.
pub open spec fn spec_limit(value: Seq<char>) -> Option<Option<usize>> {
    if value == "false"@ {
        Some(None)
    } else {
        match spec_parse_usize(value) {
            Some(n) => Some(Some(n)),
            None => None,
        }
    }
}

/// The setting that `key` and `value` name, if they name one.
pub open spec fn spec_setting(key: Seq<char>, value: Seq<char>) -> Option<Setting> {
    if key == "truncation"@ {
        match spec_limit(value) {
            Some(l) => Some(Setting::Truncation(l)),
            None => None,
        }
    } else if key == "history-limit"@ {
        match spec_limit(value) {
            Some(l) => Some(Setting::HistoryLimit(l)),
            None => None,
        }
    } else if key == "show-errors"@ {
        match spec_parse_bool(value) {
            Some(b) => Some(Setting::ShowErrors(b)),
            None => None,
        }
    } else {
        None
    }
}

/// The refusal of a `configure` with this key and value.
pub open spec fn configure_refusal(f: Refusal, key: Seq<char>, value: Seq<char>) -> bool {
    if key == "truncation"@ {
        refuses_value(f, "Invalid truncation length: "@, value)
    } else if key == "history-limit"@ {
        refuses_value(f, "Invalid history limit: "@, value)
    } else if key == "show-errors"@ {
        refuses_value(f, "Invalid value for show-errors: "@, value)
    } else {
        refuses_argument(f, "Invalid configuration key: "@, key)
    }
}

fn parse_limit(value: &str) -> (r: Option<Option<usize>>)
    ensures
        r == spec_limit(value@),
{
    if same_text(value, "false") {
        Some(None)
    } else {
        match parse_usize(value) {
            Some(n) => Some(Some(n)),
            None => None,
        }
    }
}

/// Reads the arguments of `configure`: a setting's key and its new value.
pub fn parse_setting(key: &str, value: &str) -> (r: Result<Setting, Refusal>)
    ensures
        match spec_setting(key@, value@) {
            Some(s) => r == Ok::<Setting, Refusal>(s),
            None => r matches Err(f) && configure_refusal(f, key@, value@),
        },
{
    if same_text(key, "truncation") {
        match parse_limit(value) {
            Some(l) => Ok(Setting::Truncation(l)),
            None => Err(
                Refusal {
                    kind: ArgumentError::InvalidValue(value.to_owned()),
                    message: make_quoted("Invalid truncation length: ", value),
                },
            ),
        }
    } else if same_text(key, "history-limit") {
        match parse_limit(value) {
            Some(l) => Ok(Setting::HistoryLimit(l)),
            None => Err(
                Refusal {
                    kind: ArgumentError::InvalidValue(value.to_owned()),
                    message: make_quoted("Invalid history limit: ", value),
                },
            ),
        }
    } else if same_text(key, "show-errors") {
        match parse_bool(value) {
            Some(b) => Ok(Setting::ShowErrors(b)),
            None => Err(
                Refusal {
                    kind: ArgumentError::InvalidValue(value.to_owned()),
                    message: make_quoted("Invalid value for show-errors: ", value),
                },
            ),
        }
    } else {
        Err(
            Refusal {
                kind: ArgumentError::InvalidArgument(key.to_owned()),
                message: make_quoted("Invalid configuration key: ", key),
            },
        )
    }
}

impl Configuration {
    /// Applies a change of one setting; the others stay.
    pub fn apply(&mut self, s: Setting)
        ensures
            final(self).plugins@ == old(self).plugins@,
            final(self).truncation_factor == (match s {
                Setting::Truncation(l) => l,
                _ => old(self).truncation_factor,
            }),
            final(self).history_limit == (match s {
                Setting::HistoryLimit(l) => l,
                _ => old(self).history_limit,
            }),
            final(self).show_errors == (match s {
                Setting::ShowErrors(b) => b,
                _ => old(self).show_errors,
            }),
    {
        match s {
            Setting::Truncation(l) => self.truncation_factor = l,
            Setting::HistoryLimit(l) => self.history_limit = l,
            Setting::ShowErrors(b) => self.show_errors = b,
        }
    }

    /// The `configure` builtin: changes the setting named by `key` to `value`,
    /// or refuses them and leaves every setting as it was.
    pub fn configure(&mut self, key: &str, value: &str) -> (r: Result<(), Refusal>)
        ensures
            final(self).plugins@ == old(self).plugins@,
            match spec_setting(key@, value@) {
                Some(s) => r is Ok && final(self).truncation_factor == (match s {
                    Setting::Truncation(l) => l,
                    _ => old(self).truncation_factor,
                }) && final(self).history_limit == (match s {
                    Setting::HistoryLimit(l) => l,
                    _ => old(self).history_limit,
                }) && final(self).show_errors == (match s {
                    Setting::ShowErrors(b) => b,
                    _ => old(self).show_errors,
                }),
                None => r matches Err(f) && configure_refusal(f, key@, value@)
                    && final(self).truncation_factor == old(self).truncation_factor
                    && final(self).history_limit == old(self).history_limit
                    && final(self).show_errors == old(self).show_errors,
            },
    {
        match parse_setting(key, value) {
            Ok(s) => {
                self.apply(s);
                Ok(())
            },
            Err(f) => Err(f),
        }
    }
}

/// A variable of the shell's environment that can be shown.
#[derive(Debug, Clone, Copy, PartialEq, Eq, Structural)]
pub enum EnvVar {
    Path,
    User,
    Home,
    WorkingDirectory,
}

/// What `str::to_uppercase` gives for a text.
pub uninterp spec fn uppercase_of(s: Seq<char>) -> Seq<char>;

/// Relies on str::to_uppercase: the upper-case form depends on the text alone.
#[verifier::external_body]
fn to_uppercase(s: &str) -> (r: String)
    ensures
        r@ == uppercase_of(s@),
{
    s.to_uppercase()
}

/// The variable that an upper-case name stands for.
pub open spec fn spec_env_var(upper: Seq<char>) -> Option<EnvVar> {
    if upper == "PATH"@ {
        Some(EnvVar::Path)
    } else if upper == "USER"@ {
        Some(EnvVar::User)
    } else if upper == "HOME"@ {
        Some(EnvVar::Home)
    } else if upper == "CWD"@ || upper == "WORKING-DIRECTORY"@ {
        Some(EnvVar::WorkingDirectory)
    } else {
        None
    }
}

/// Picks the variable named `name`, given its upper-case form `upper`.
pub fn env_var_of_upper(upper: &str, name: &str) -> (r: Result<EnvVar, Refusal>)
    ensures
        match spec_env_var(upper@) {
            Some(v) => r == Ok::<EnvVar, Refusal>(v),
            None => r matches Err(f) && refuses_argument(f, "Invalid environment variable: "@, name@),
        },
{
    if same_text(upper, "PATH") {
        Ok(EnvVar::Path)
    } else if same_text(upper, "USER") {
        Ok(EnvVar::User)
    } else if same_text(upper, "HOME") {
        Ok(EnvVar::Home)
    } else if same_text(upper, "CWD") || same_text(upper, "WORKING-DIRECTORY") {
        Ok(EnvVar::WorkingDirectory)
    } else {
        Err(
            Refusal {
                kind: ArgumentError::InvalidArgument(name.to_owned()),
                message: make_quoted("Invalid environment variable: ", name),
            },
        )
    }
}

/// The `environment-variable` builtin's choice: the variable named `name`,
/// in any case.
pub fn env_var(name: &str) -> (r: Result<EnvVar, Refusal>)
    ensures
        match spec_env_var(uppercase_of(name@)) {
            Some(v) => r == Ok::<EnvVar, Refusal>(v),
            None => r matches Err(f) && refuses_argument(f, "Invalid environment variable: "@, name@),
        },
{
    let upper = to_uppercase(name);
    env_var_of_upper(upper.as_str(), name)
}

/// The end of PATH where `edit-path` puts a directory.
#[derive(Debug, Clone, Copy, PartialEq, Eq, Structural)]
pub enum PathEnd {
    Front,
    Back,
}

/// The end that an `edit-path` action names: "append" puts the directory at
/// the front of the search order, "prepend" at the back.
pub open spec fn spec_path_end(action: Seq<char>) -> Option<PathEnd> {
    if action == "append"@ {
        Some(PathEnd::Front)
    } else if action == "prepend"@ {
        Some(PathEnd::Back)
    } else {
        None
    }
}

/// The `edit-path` builtin's decision, from its action, its directory
/// argument, and what canonicalising that directory gave: where to put which
/// path.
pub fn edit_path(action: &str, directory: &str, canonical: Option<String>) -> (r: Result<
    (PathEnd, String),
    Refusal,
>)
    ensures
        match canonical {
            None => r matches Err(f) && refuses_argument(f, "Invalid directory: "@, directory@),
            Some(c) => match spec_path_end(action@) {
                Some(e) => r matches Ok(p) && p.0 == e && p.1@ == c@,
                None => r matches Err(f) && refuses_argument(f, "Invalid action: "@, action@),
            },
        },
{
    match canonical {
        None => Err(
            Refusal {
                kind: ArgumentError::InvalidArgument(directory.to_owned()),
                message: make_quoted("Invalid directory: ", directory),
            },
        ),
        Some(c) => {
            if same_text(action, "append") {
                Ok((PathEnd::Front, c))
            } else if same_text(action, "prepend") {
                Ok((PathEnd::Back, c))
            } else {
                Err(
                    Refusal {
                        kind: ArgumentError::InvalidArgument(action.to_owned()),
                        message: make_quoted("Invalid action: ", action),
                    },
                )
            }
        },
    }
}

} // verus!
