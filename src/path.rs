//! Absolute paths as the shell shows them, and the search of PATH.
//!
//! Paths are held as text. The filesystem work (canonicalising a path, asking
//! whether a file exists) is done by the caller, which hands over the results.
use vstd::prelude::*;

use crate::text::{push_char, same_text};

verus! {

/// The path relative to the home directory, if it lies within it. Paths are
/// taken to be normalised: absolute, with no empty or dot components.
pub open spec fn relative_to_home(path: Seq<char>, home: Seq<char>) -> Option<Seq<char>> {
    if path == home {
        Some(Seq::<char>::empty())
    } else if path.len() > home.len() && path.take(home.len() as int) == home {
        if home.len() > 0 && home.last() == '/' {
            Some(path.skip(home.len() as int))
        } else if path[home.len() as int] == '/' {
            Some(path.skip(home.len() + 1int))
        } else {
            None
        }
    } else {
        None
    }
}

/// The path with the home directory written as '~'.
pub open spec fn collapse_home(path: Seq<char>, home: Seq<char>) -> Seq<char> {
    match relative_to_home(path, home) {
        Some(rest) => if rest.len() == 0 {
            seq!['~']
        } else {
            seq!['~', '/'] + rest
        },
        None => path,
    }
}

/// The text with each '/'-separated component cut to its first `factor`
/// characters, and the length of the last component before cutting.
pub open spec fn truncate_state(s: Seq<char>, factor: nat) -> (Seq<char>, nat)
    decreases s.len(),
{
    if s.len() == 0 {
        (seq![], 0)
    } else {
        let (out, run) = truncate_state(s.drop_last(), factor);
        let c = s.last();
        if c == '/' {
            (out.push('/'), 0)
        } else if run < factor {
            (out.push(c), run + 1)
        } else {
            (out, run + 1)
        }
    }
}

/// The text with each '/'-separated component cut to its first `factor` characters.
pub open spec fn truncate_components(s: Seq<char>, factor: nat) -> Seq<char> {
    truncate_state(s, factor).0
}

/// The short form of a path: home collapsed, then components truncated if a
/// truncation factor is set.
pub open spec fn shorten(path: Seq<char>, home: Seq<char>, truncation: Option<usize>) -> Seq<char> {
    match truncation {
        Some(f) => truncate_components(collapse_home(path, home), f as nat),
        None => collapse_home(path, home),
    }
}

/// The text with each '~' replaced by the home directory.
pub open spec fn replace_tilde(s: Seq<char>, home: Seq<char>) -> Seq<char>
    decreases s.len(),
{
    if s.len() == 0 {
        seq![]
    } else if s.last() == '~' {
        replace_tilde(s.drop_last(), home) + home
    } else {
        replace_tilde(s.drop_last(), home).push(s.last())
    }
}

/// A path string with the home shorthand expanded: where it starts with '~',
/// every '~' in it stands for the home directory.
pub open spec fn spec_expand_home(path: Seq<char>, home: Seq<char>) -> Seq<char> {
    if path.len() > 0 && path[0] == '~' {
        replace_tilde(path, home)
    } else {
        path
    }
}

/// A name put under a directory: an absolute name stands alone; otherwise a
/// '/' separates the two unless the directory is empty or ends with one.
pub open spec fn spec_join_path(dir: Seq<char>, name: Seq<char>) -> Seq<char> {
    if name.len() > 0 && name[0] == '/' {
        name
    } else if dir.len() == 0 || dir.last() == '/' {
        dir + name
    } else {
        dir + seq!['/'] + name
    }
}

/// Why a path could not be taken.
#[derive(Debug, PartialEq, Eq, Structural)]
pub enum PathError {
    /// The path does not name an existing directory or file.
    UnknownDirectory,
}

/// What a path is, seen from outside.
pub struct PathView {
    pub absolute: Seq<char>,
    pub home: Seq<char>,
    pub truncation: Option<usize>,
}

/// An absolute path, with its short form kept up to date.
pub struct Path {
    absolute_path: String,
    home_directory: String,
    shortened_path: String,
    truncation_factor: Option<usize>,
}

impl View for Path {
    type V = PathView;

    closed spec fn view(&self) -> PathView {
        PathView {
            absolute: self.absolute_path@,
            home: self.home_directory@,
            truncation: self.truncation_factor,
        }
    }
}

fn collapse_home_of(path: &str, home: &str) -> (r: String)
    ensures
        r@ == collapse_home(path@, home@),
{
    let n = path.unicode_len();
    let h = home.unicode_len();
    if n == h && same_text(path, home) {
        proof {
            reveal_strlit("~");
        }
        return "~".to_owned();
    }
    if n <= h {
        return path.to_owned();
    }
    let head = path.substring_char(0, h);
    if !same_text(head, home) {
        assert(path@.subrange(0, h as int) =~= path@.take(h as int));
        return path.to_owned();
    }
    assert(path@.subrange(0, h as int) =~= path@.take(h as int));
    let start: usize = if h > 0 && home.get_char(h - 1) == '/' {
        h
    } else if path.get_char(h) == '/' {
        h + 1
    } else {
        return path.to_owned();
    };
    let rest = path.substring_char(start, n);
    assert(path@.subrange(start as int, n as int) =~= path@.skip(start as int));
    proof {
        reveal_strlit("~");
        reveal_strlit("~/");
    }
    if start == n {
        return "~".to_owned();
    }
    let mut r = "~/".to_owned();
    r.append(rest);
    assert(r@ =~= seq!['~', '/'] + path@.skip(start as int));
    r
}

fn truncate_components_of(s: &str, factor: usize) -> (r: String)
    ensures
        r@ == truncate_components(s@, factor as nat),
{
    let n = s.unicode_len();
    let mut r = String::new();
    let mut run: usize = 0;
    let mut i: usize = 0;
    while i < n
        invariant
            n == s@.len(),
            i <= n,
            r@ == truncate_state(s@.take(i as int), factor as nat).0,
            run <= i,
            run == truncate_state(s@.take(i as int), factor as nat).1,
        decreases n - i,
    {
        let c = s.get_char(i);
        proof {
            assert(s@.take(i + 1).drop_last() =~= s@.take(i as int));
            assert(s@.take(i + 1).last() == c);
        }
        if c == '/' {
            push_char(&mut r, '/');
            run = 0;
        } else {
            if run < factor {
                push_char(&mut r, c);
            }
            run = run + 1;
        }
        i = i + 1;
    }
    assert(s@.take(n as int) =~= s@);
    r
}

/// The short form of `absolute` for the given home directory and truncation.
pub fn shorten_path(absolute: &str, home: &str, truncation: Option<usize>) -> (r: String)
    ensures
        r@ == shorten(absolute@, home@, truncation),
{
    let collapsed = collapse_home_of(absolute, home);
    match truncation {
        Some(f) => truncate_components_of(collapsed.as_str(), f),
        None => collapsed,
    }
}

impl Path {
    /// The short form matches the absolute path and the settings.
    pub closed spec fn well_formed(&self) -> bool {
        self.shortened_path@ == shorten(
            self.absolute_path@,
            self.home_directory@,
            self.truncation_factor,
        )
    }

    /// A path for an absolute path, under the given home directory, not truncated.
    pub fn new(absolute_path: String, home_directory: &String) -> (r: Result<Path, PathError>)
        ensures
            r matches Ok(p) && p.well_formed() && p@.absolute == absolute_path@ && p@.home == home_directory@
                && p@.truncation is None,
    {
        let shortened_path = shorten_path(absolute_path.as_str(), home_directory.as_str(), None);
        Ok(
            Path {
                absolute_path,
                home_directory: home_directory.clone(),
                shortened_path,
                truncation_factor: None,
            },
        )
    }

    /// A path from what canonicalising the expanded path string gave, if it
    /// named something that exists.
    pub fn from_str_path(canonical: Option<String>, home_directory: &String) -> (r: Result<
        Path,
        PathError,
    >)
        ensures
            match canonical {
                Some(c) => r matches Ok(p) && p.well_formed() && p@.absolute == c@ && p@.home == home_directory@
                    && p@.truncation is None,
                None => r == Err::<Path, PathError>(PathError::UnknownDirectory),
            },
    {
        match canonical {
            Some(absolute_path) => Path::new(absolute_path, home_directory),
            None => Err(PathError::UnknownDirectory),
        }
    }

    /// The absolute path, with all directory names included.
    pub fn absolute(&self) -> (r: &String)
        ensures
            r@ == self@.absolute,
    {
        &self.absolute_path
    }

    /// The short form: home collapsed to '~', components truncated if set.
    pub fn short(&self) -> (r: &String)
        requires
            self.well_formed(),
        ensures
            r@ == shorten(self@.absolute, self@.home, self@.truncation),
    {
        &self.shortened_path
    }

    /// Truncates each component of the short form to `factor` characters.
    pub fn set_truncation(&mut self, factor: usize) -> (r: Result<(), PathError>)
        ensures
            final(self).well_formed(),
            r is Ok,
            final(self)@.absolute == old(self)@.absolute,
            final(self)@.home == old(self)@.home,
            final(self)@.truncation == Some(factor),
    {
        self.truncation_factor = Some(factor);
        self.update_shortened_path()
    }

    /// Shows components in full again.
    pub fn disable_truncation(&mut self) -> (r: Result<(), PathError>)
        ensures
            final(self).well_formed(),
            r is Ok,
            final(self)@.absolute == old(self)@.absolute,
            final(self)@.home == old(self)@.home,
            final(self)@.truncation is None,
    {
        self.truncation_factor = None;
        self.update_shortened_path()
    }

    /// Regenerates the short form from the current settings.
    fn update_shortened_path(&mut self) -> (r: Result<(), PathError>)
        ensures
            final(self).well_formed(),
            r is Ok,
            final(self)@ == old(self)@,
    {
        let s = shorten_path(
            self.absolute_path.as_str(),
            self.home_directory.as_str(),
            self.truncation_factor,
        );
        self.shortened_path = s;
        Ok(())
    }

    /// Moves to what canonicalising the expanded new path gave; a path that
    /// did not resolve leaves this one as it was.
    pub fn set_path(&mut self, canonical: Option<String>) -> (r: Result<(), PathError>)
        requires
            old(self).well_formed(),
        ensures
            final(self).well_formed(),
            match canonical {
                Some(c) => r is Ok && final(self)@.absolute == c@,
                None => r == Err::<(), PathError>(PathError::UnknownDirectory) && final(self)@.absolute
                    == old(self)@.absolute,
            },
            final(self)@.home == old(self)@.home,
            final(self)@.truncation == old(self)@.truncation,
    {
        match canonical {
            Some(c) => {
                self.absolute_path = c;
                self.update_shortened_path()
            },
            None => Err(PathError::UnknownDirectory),
        }
    }
}

/// The path string with the home shorthand '~' expanded.
pub fn expand_home(path: &str, home_directory: &str) -> (r: String)
    ensures
        r@ == spec_expand_home(path@, home_directory@),
{
    let n = path.unicode_len();
    if n == 0 || path.get_char(0) != '~' {
        return path.to_owned();
    }
    let mut r = String::new();
    let mut i: usize = 0;
    while i < n
        invariant
            n == path@.len(),
            i <= n,
            r@ == replace_tilde(path@.take(i as int), home_directory@),
        decreases n - i,
    {
        let c = path.get_char(i);
        proof {
            assert(path@.take(i + 1).drop_last() =~= path@.take(i as int));
            assert(path@.take(i + 1).last() == c);
        }
        if c == '~' {
            r.append(home_directory);
        } else {
            push_char(&mut r, c);
        }
        i = i + 1;
    }
    assert(path@.take(n as int) =~= path@);
    r
}

/// The name put under the directory, as a path.
pub fn join_path(dir: &str, name: &str) -> (r: String)
    ensures
        r@ == spec_join_path(dir@, name@),
{
    if !name.is_empty() && name.get_char(0) == '/' {
        return name.to_owned();
    }
    let k = dir.unicode_len();
    let mut r = dir.to_owned();
    if k > 0 && dir.get_char(k - 1) != '/' {
        push_char(&mut r, '/');
    }
    r.append(name);
    r
}

/// The paths at which a command name is looked for, one per PATH directory, in order.
pub fn candidate_paths(name: &str, path: &Vec<String>) -> (r: Vec<String>)
    ensures
        r@.len() == path@.len(),
        forall|i: int| 0 <= i < path@.len() ==> r@[i]@ == spec_join_path(path@[i]@, name@),
{
    let mut r: Vec<String> = Vec::new();
    let mut i: usize = 0;
    while i < path.len()
        invariant
            i <= path@.len(),
            r@.len() == i,
            forall|j: int| 0 <= j < i ==> r@[j]@ == spec_join_path(path@[j]@, name@),
        decreases path.len() - i,
    {
        let p = join_path(path[i].as_str(), name);
        r.push(p);
        i = i + 1;
    }
    r
}

/// The first PATH directory, in list order, under which the name exists:
/// `exists[i]` tells whether the name was found under `path[i]`.
pub open spec fn first_found(exists: Seq<bool>, i: int) -> bool {
    0 <= i < exists.len() && exists[i] && forall|j: int| 0 <= j < i ==> !exists[j]
}

/// Resolves a command name against the PATH directories: the path under the
/// first directory, in list order, where the name exists.
pub fn resolve_executable(name: &str, path: &Vec<String>, exists: &Vec<bool>) -> (r: Option<
    String,
>)
    requires
        exists@.len() == path@.len(),
    ensures
        match r {
            Some(p) => exists|i: int|
                first_found(exists@, i) && p@ == spec_join_path(path@[i]@, name@),
            None => forall|i: int| 0 <= i < exists@.len() ==> !exists@[i],
        },
{
    let mut i: usize = 0;
    while i < path.len()
        invariant
            exists@.len() == path@.len(),
            i <= path@.len(),
            forall|j: int| 0 <= j < i ==> !exists@[j],
        decreases path.len() - i,
    {
        if exists[i] {
            let p = join_path(path[i].as_str(), name);
            assert(first_found(exists@, i as int));
            return Some(p);
        }
        i = i + 1;
    }
    None
}

} // verus!
