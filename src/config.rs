//! The shell's settings, which the user can change, and the lines of a
//! configuration file that set them.
use vstd::prelude::*;

use crate::parse::{parse_bool, parse_usize, spec_parse_bool, spec_parse_usize};
use crate::path::{join_path, spec_join_path};
use crate::text::same_text;

verus! {

/// The settings of the shell.
pub struct Configuration {
    /// The length to which the prompt truncates each directory name.
    pub truncation_factor: Option<usize>,
    /// How many directories the back/forward history keeps.
    pub history_limit: Option<usize>,
    /// Whether a failed command shows its full error.
    pub show_errors: bool,
    /// Plugins to load: directories to search, or files.
    pub plugins: Vec<String>,
}

/// The settings, seen from outside.
pub struct ConfigView {
    pub truncation_factor: Option<usize>,
    pub history_limit: Option<usize>,
    pub show_errors: bool,
    pub plugins: Seq<Seq<char>>,
}

impl View for Configuration {
    type V = ConfigView;

    open spec fn view(&self) -> ConfigView {
        ConfigView {
            truncation_factor: self.truncation_factor,
            history_limit: self.history_limit,
            show_errors: self.show_errors,
            plugins: self.plugins@.map_values(|p: String| p@),
        }
    }
}

/// The settings before any change: no truncation, no history limit, errors
/// shown, no plugins.
pub open spec fn default_view() -> ConfigView {
    ConfigView {
        truncation_factor: None,
        history_limit: None,
        show_errors: true,
        plugins: Seq::<Seq<char>>::empty(),
    }
}

impl Default for Configuration {
    /// No truncation, no history limit, errors shown, no plugins.
    fn default() -> (c: Configuration)
        ensures
            c@ == default_view(),
    {
        let c = Configuration {
            truncation_factor: None,
            history_limit: None,
            show_errors: true,
            plugins: Vec::new(),
        };
        assert(c@.plugins =~= Seq::<Seq<char>>::empty());
        c
    }
}

/// A line of a configuration file that is not `key: value` with a known key.
#[derive(Debug, PartialEq, Eq, Structural)]
pub struct MalformedLine;

/// ": " starts at index `i` of the line.
pub open spec fn separator_at(s: Seq<char>, i: int) -> bool {
    0 <= i && i + 1 < s.len() && s[i] == ':' && s[i + 1] == ' '
}

/// The line splits at ": " into exactly a key and a value: the index where
/// the one separator starts.
pub open spec fn split_point(s: Seq<char>, i: int) -> bool {
    &&& separator_at(s, i)
    &&& forall|j: int| 0 <= j < i ==> !separator_at(s, j)
    &&& forall|j: int| i + 2 <= j ==> !separator_at(s, j)
}

/// A limit in a configuration file: a count, or "false" for none; anything
/// else leaves the limit as it was.
pub open spec fn file_limit(value: Seq<char>, old: Option<usize>) -> Option<usize> {
    match spec_parse_usize(value) {
        Some(n) => Some(n),
        None => if value == "false"@ {
            None
        } else {
            old
        },
    }
}

/// The settings after the line `key: value`, where `config_dir` is the
/// directory of the configuration file; none if the key is unknown.
pub open spec fn apply_setting(
    c: ConfigView,
    key: Seq<char>,
    value: Seq<char>,
    config_dir: Seq<char>,
) -> Option<ConfigView> {
    if key == "truncation-factor"@ {
        Some(ConfigView { truncation_factor: file_limit(value, c.truncation_factor), ..c })
    } else if key == "history-limit"@ {
        Some(ConfigView { history_limit: file_limit(value, c.history_limit), ..c })
    } else if key == "show-errors"@ {
        Some(
            ConfigView {
                show_errors: match spec_parse_bool(value) {
                    Some(b) => b,
                    None => c.show_errors,
                },
                ..c
            },
        )
    } else if key == "plugin"@ {
        Some(ConfigView { plugins: c.plugins.push(spec_join_path(config_dir, value)), ..c })
    } else {
        None
    }
}

/// The settings after a line of a configuration file; none if the line is malformed.
pub open spec fn apply_line(c: ConfigView, line: Seq<char>, config_dir: Seq<char>) -> Option<
    ConfigView,
> {
    if exists|i: int| split_point(line, i) {
        let i = choose|i: int| split_point(line, i);
        apply_setting(c, line.take(i), line.skip(i + 2), config_dir)
    } else {
        None
    }
}

/// The settings after the lines in turn, from the defaults; none if a line
/// is malformed.
pub open spec fn apply_lines(lines: Seq<Seq<char>>, config_dir: Seq<char>) -> Option<ConfigView>
    decreases lines.len(),
{
    if lines.len() == 0 {
        Some(default_view())
    } else {
        match apply_lines(lines.drop_last(), config_dir) {
            Some(c) => apply_line(c, lines.last(), config_dir),
            None => None,
        }
    }
}

/// The index where the first ": " of the line starts, if any.
fn find_separator(s: &str, from: usize) -> (r: Option<usize>)
    requires
        from <= s@.len(),
    ensures
        match r {
            Some(i) => from <= i && separator_at(s@, i as int) && forall|j: int|
                from <= j < i ==> !separator_at(s@, j),
            None => forall|j: int| from <= j ==> !separator_at(s@, j),
        },
{
    let n = s.unicode_len();
    let mut i: usize = from;
    while i < n && i + 1 < n
        invariant
            n == s@.len(),
            from <= i <= n,
            forall|j: int| from <= j < i ==> !separator_at(s@, j),
        decreases n - i,
    {
        if s.get_char(i) == ':' && s.get_char(i + 1) == ' ' {
            return Some(i);
        }
        i = i + 1;
    }
    None
}

impl Configuration {
    /// Takes one line of a configuration file: `key: value`, where the key is
    /// one of "truncation-factor", "history-limit", "show-errors" or "plugin"
    /// (a path relative to `config_dir`). A malformed line changes nothing.
    pub fn read_line(&mut self, line: &str, config_dir: &str) -> (r: Result<(), MalformedLine>)
        ensures
            match apply_line(old(self)@, line@, config_dir@) {
                Some(c) => r is Ok && final(self)@ == c,
                None => r is Err && final(self)@ == old(self)@,
            },
    {
        let n = line.unicode_len();
        let i = match find_separator(line, 0) {
            Some(i) => i,
            None => {
                assert(!exists|i: int| split_point(line@, i));
                return Err(MalformedLine);
            },
        };
        if let Some(k) = find_separator(line, i + 2) {
            assert(separator_at(line@, k as int));
            assert(!exists|x: int| split_point(line@, x));
            return Err(MalformedLine);
        }
        assert(split_point(line@, i as int));
        let key = line.substring_char(0, i);
        let value = line.substring_char(i + 2, n);
        assert(key@ =~= line@.take(i as int));
        assert(value@ =~= line@.skip(i + 2));
        if same_text(key, "truncation-factor") {
            self.truncation_factor = match parse_usize(value) {
                Some(v) => Some(v),
                None => if same_text(value, "false") {
                    None
                } else {
                    self.truncation_factor
                },
            };
        } else if same_text(key, "history-limit") {
            self.history_limit = match parse_usize(value) {
                Some(v) => Some(v),
                None => if same_text(value, "false") {
                    None
                } else {
                    self.history_limit
                },
            };
        } else if same_text(key, "show-errors") {
            if let Some(b) = parse_bool(value) {
                self.show_errors = b;
            }
        } else if same_text(key, "plugin") {
            let p = join_path(config_dir, value);
            let ghost before = self@.plugins;
            self.plugins.push(p);
            assert(self@.plugins =~= before.push(spec_join_path(config_dir@, value@)));
        } else {
            return Err(MalformedLine);
        }
        Ok(())
    }

    /// The settings that the lines of a configuration file give, in turn from
    /// the defaults; where `config_dir` is the file's directory.
    pub fn from_lines(lines: &Vec<String>, config_dir: &str) -> (r: Result<
        Configuration,
        MalformedLine,
    >)
        ensures
            match apply_lines(lines@.map_values(|l: String| l@), config_dir@) {
                Some(c) => r matches Ok(x) && x@ == c,
                None => r is Err,
            },
    {
        let ghost ls = lines@.map_values(|l: String| l@);
        let mut config = Configuration::default();
        let mut i: usize = 0;
        assert(ls.take(0).len() == 0);
        while i < lines.len()
            invariant
                i <= lines@.len(),
                ls == lines@.map_values(|l: String| l@),
                apply_lines(ls.take(i as int), config_dir@) == Some(config@),
            decreases lines.len() - i,
        {
            assert(ls.take(i + 1).drop_last() =~= ls.take(i as int));
            assert(ls.take(i + 1).last() == lines@[i as int]@);
            match config.read_line(lines[i].as_str(), config_dir) {
                Ok(()) => {},
                Err(e) => {
                    proof {
                        lemma_malformed_stays(ls, config_dir@, i + 1);
                    }
                    return Err(e);
                },
            }
            i = i + 1;
        }
        assert(ls.take(lines@.len() as int) =~= ls);
        Ok(config)
    }
}

proof fn lemma_malformed_stays(ls: Seq<Seq<char>>, config_dir: Seq<char>, k: int)
    requires
        0 <= k <= ls.len(),
        apply_lines(ls.take(k), config_dir) is None,
    ensures
        apply_lines(ls, config_dir) is None,
    decreases ls.len() - k,
{
    if k < ls.len() {
        assert(ls.take(k + 1).drop_last() =~= ls.take(k));
        lemma_malformed_stays(ls, config_dir, k + 1);
    } else {
        assert(ls.take(k) =~= ls);
    }
}

} // verus!
