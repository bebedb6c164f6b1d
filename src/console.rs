//! The state of the text-mode console: the line being edited, the output
//! shown above it, and what each key does. Drawing and reading the terminal
//! are left to the caller.
use vstd::prelude::*;

use crate::text::push_char;

verus! {

/// A key as the console tells keys apart.
#[derive(Debug, Clone, Copy, PartialEq, Eq, Structural)]
pub enum Key {
    /// A character typed, with or without shift.
    Char(char),
    Backspace,
    Delete,
    Left,
    Right,
    Enter,
    /// Shift+Up.
    ScrollUp,
    /// Shift+Down.
    ScrollDown,
    /// Ctrl+C.
    Interrupt,
    /// Ctrl+L.
    ClearScreen,
    /// Ctrl+D.
    ToggleDebug,
    /// The terminal changed size.
    Resize,
    /// Any other key or event.
    Other,
}

/// What the read loop does after a key.
#[derive(Debug, Clone, Copy, PartialEq, Eq, Structural)]
pub enum ReplAction {
    /// Hand the line to the shell.
    Return,
    /// Leave the shell.
    Exit,
    /// Draw the console again.
    RedrawFrame,
    /// Do nothing.
    Ignore,
}

/// The lines after appending the characters of `s` in turn: a '\n' starts a
/// new line, any other character extends the last line.
pub open spec fn append_chars(lines: Seq<Seq<char>>, s: Seq<char>) -> Seq<Seq<char>>
    decreases s.len(),
{
    if s.len() == 0 {
        lines
    } else {
        let l = append_chars(lines, s.drop_last());
        if s.last() == '\n' {
            l.push(seq![])
        } else {
            l.update(l.len() - 1, l.last().push(s.last()))
        }
    }
}

/// The lines after appending a text: it continues the last line, or starts
/// the first where there is none.
pub open spec fn appended(lines: Seq<Seq<char>>, s: Seq<char>) -> Seq<Seq<char>> {
    if s.len() == 0 {
        lines
    } else if lines.len() == 0 {
        append_chars(seq![seq![]], s)
    } else {
        append_chars(lines, s)
    }
}

/// The state of the console.
pub struct ConsoleState {
    line: Vec<char>,
    cursor: usize,
    output: Vec<String>,
    pub scroll: usize,
    pub debug_mode: bool,
}

/// The console's state, seen from outside.
pub struct ConsoleView {
    pub line: Seq<char>,
    pub cursor: nat,
    pub output: Seq<Seq<char>>,
    pub scroll: nat,
    pub debug_mode: bool,
}

impl View for ConsoleState {
    type V = ConsoleView;

    closed spec fn view(&self) -> ConsoleView {
        ConsoleView {
            line: self.line@,
            cursor: self.cursor as nat,
            output: self.output@.map_values(|l: String| l@),
            scroll: self.scroll as nat,
            debug_mode: self.debug_mode,
        }
    }
}

/// The state after a key that edits the line or moves the view.
pub open spec fn after_key(s: ConsoleView, key: Key) -> ConsoleView {
    match key {
        Key::Char(c) => ConsoleView { line: s.line.insert(s.cursor as int, c), cursor: s.cursor + 1, ..s },
        Key::Backspace => if s.cursor > 0 {
            ConsoleView { line: s.line.remove(s.cursor - 1), cursor: (s.cursor - 1) as nat, ..s }
        } else {
            s
        },
        Key::Delete => if s.cursor < s.line.len() {
            ConsoleView { line: s.line.remove(s.cursor as int), ..s }
        } else {
            s
        },
        Key::Left => if s.cursor > 0 {
            ConsoleView { cursor: (s.cursor - 1) as nat, ..s }
        } else {
            s
        },
        Key::Right => if s.cursor < s.line.len() {
            ConsoleView { cursor: s.cursor + 1, ..s }
        } else {
            s
        },
        Key::ScrollUp => ConsoleView { scroll: if s.scroll > 0 { (s.scroll - 1) as nat } else { 0 }, ..s },
        Key::ScrollDown => ConsoleView {
            scroll: if s.scroll < usize::MAX { s.scroll + 1 } else { s.scroll },
            ..s
        },
        Key::ClearScreen => ConsoleView { output: seq![], ..s },
        Key::ToggleDebug => ConsoleView { debug_mode: !s.debug_mode, ..s },
        _ => s,
    }
}

/// What the read loop does after a key: Enter returns a line that is not
/// empty, Ctrl+C exits, other keys that the console knows redraw it.
pub open spec fn action_of(s: ConsoleView, key: Key) -> ReplAction {
    match key {
        Key::Enter => if s.line.len() > 0 {
            ReplAction::Return
        } else {
            ReplAction::Ignore
        },
        Key::Interrupt => ReplAction::Exit,
        Key::Other => ReplAction::Ignore,
        _ => ReplAction::RedrawFrame,
    }
}

impl ConsoleState {
    /// The cursor stands within the line or at its end.
    pub closed spec fn well_formed(&self) -> bool {
        self.cursor <= self.line@.len()
    }

    /// An empty line, no output, not scrolled, no debug panel.
    pub fn new() -> (s: ConsoleState)
        ensures
            s.well_formed(),
            s@.line.len() == 0,
            s@.cursor == 0,
            s@.output.len() == 0,
            s@.scroll == 0,
            !s@.debug_mode,
    {
        let s = ConsoleState {
            line: Vec::new(),
            cursor: 0,
            output: Vec::new(),
            scroll: 0,
            debug_mode: false,
        };
        assert(s@.output =~= Seq::<Seq<char>>::empty());
        s
    }

    /// The line being edited.
    pub fn line(&self) -> (r: String)
        ensures
            r@ == self@.line,
    {
        let mut r = String::new();
        let mut i: usize = 0;
        while i < self.line.len()
            invariant
                i <= self.line@.len(),
                r@ == self.line@.take(i as int),
            decreases self.line.len() - i,
        {
            push_char(&mut r, self.line[i]);
            assert(self.line@.take(i + 1) =~= self.line@.take(i as int).push(self.line@[i as int]));
            i = i + 1;
        }
        assert(self.line@.take(self.line@.len() as int) =~= self.line@);
        r
    }

    /// The index of the cursor in the line, in characters.
    pub fn cursor(&self) -> (r: usize)
        ensures
            r == self@.cursor,
    {
        self.cursor
    }

    /// The lines of output.
    pub fn output(&self) -> (r: &Vec<String>)
        ensures
            r@.map_values(|l: String| l@) == self@.output,
    {
        &self.output
    }

    /// Empties the line and puts the cursor at its start.
    pub fn reset_line(&mut self)
        ensures
            final(self).well_formed(),
            final(self)@ == (ConsoleView { line: seq![], cursor: 0, ..old(self)@ }),
    {
        self.line = Vec::new();
        self.cursor = 0;
        assert(self@.line =~= Seq::<char>::empty());
    }

    /// Empties the output.
    pub fn clear_output(&mut self)
        requires
            old(self).well_formed(),
        ensures
            final(self).well_formed(),
            final(self)@ == (ConsoleView { output: seq![], ..old(self)@ }),
    {
        self.output = Vec::new();
        assert(self@.output =~= Seq::<Seq<char>>::empty());
    }

    /// Takes a key: edits the line or the view, and says what the read loop does.
    pub fn handle_key(&mut self, key: Key) -> (a: ReplAction)
        requires
            old(self).well_formed(),
        ensures
            final(self).well_formed(),
            final(self)@ == after_key(old(self)@, key),
            a == action_of(old(self)@, key),
    {
        let ghost before = self@;
        match key {
            Key::Char(c) => {
                self.line.insert(self.cursor, c);
                let len = self.line.len();
                assert(self.cursor < len);
                self.cursor = self.cursor + 1;
            },
            Key::Backspace => {
                if self.cursor > 0 {
                    self.line.remove(self.cursor - 1);
                    self.cursor = self.cursor - 1;
                }
            },
            Key::Delete => {
                if self.cursor < self.line.len() {
                    self.line.remove(self.cursor);
                }
            },
            Key::Left => {
                if self.cursor > 0 {
                    self.cursor = self.cursor - 1;
                }
            },
            Key::Right => {
                if self.cursor < self.line.len() {
                    self.cursor = self.cursor + 1;
                }
            },
            Key::ScrollUp => {
                self.scroll = self.scroll.saturating_sub(1);
            },
            Key::ScrollDown => {
                self.scroll = self.scroll.saturating_add(1);
            },
            Key::ClearScreen => {
                self.output = Vec::new();
                assert(self@.output =~= Seq::<Seq<char>>::empty());
            },
            Key::ToggleDebug => {
                self.debug_mode = !self.debug_mode;
            },
            _ => {},
        }
        assert(self@ == after_key(before, key));
        match key {
            Key::Enter => if self.line.len() > 0 {
                ReplAction::Return
            } else {
                ReplAction::Ignore
            },
            Key::Interrupt => ReplAction::Exit,
            Key::Other => ReplAction::Ignore,
            _ => ReplAction::RedrawFrame,
        }
    }

    /// Appends a text to the output: it continues the last line, and each
    /// '\n' in it starts a new line.
    pub fn append_str(&mut self, s: &str)
        requires
            old(self).well_formed(),
        ensures
            final(self).well_formed(),
            final(self)@ == (ConsoleView { output: appended(old(self)@.output, s@), ..old(self)@ }),
    {
        let n = s.unicode_len();
        if n == 0 {
            return;
        }
        let ghost start = if self@.output.len() == 0 {
            seq![seq![]]
        } else {
            self@.output
        };
        if self.output.len() == 0 {
            self.output.push(String::new());
            assert(self@.output =~= start);
        }
        let mut i: usize = 0;
        while i < n
            invariant
                n == s@.len(),
                i <= n,
                self.well_formed(),
                self.output@.len() > 0,
                self@.output == append_chars(start, s@.take(i as int)),
                self@.line == old(self)@.line,
                self@.cursor == old(self)@.cursor,
                self@.scroll == old(self)@.scroll,
                self@.debug_mode == old(self)@.debug_mode,
            decreases n - i,
        {
            let c = s.get_char(i);
            let ghost prev = self@.output;
            proof {
                assert(s@.take(i + 1).drop_last() =~= s@.take(i as int));
                assert(s@.take(i + 1).last() == c);
            }
            if c == '\n' {
                self.output.push(String::new());
                assert(self@.output =~= prev.push(seq![]));
            } else {
                let mut last = self.output.pop().unwrap();
                push_char(&mut last, c);
                self.output.push(last);
                assert(self@.output =~= prev.update(prev.len() - 1, prev.last().push(c)));
            }
            i = i + 1;
        }
        assert(s@.take(n as int) =~= s@);
    }

    /// Appends a text and ends the line.
    pub fn append_newline(&mut self, s: &str)
        requires
            old(self).well_formed(),
        ensures
            final(self).well_formed(),
            final(self)@ == (ConsoleView {
                output: appended(old(self)@.output, s@.push('\n')),
                ..old(self)@
            }),
    {
        let mut t = s.to_owned();
        push_char(&mut t, '\n');
        self.append_str(t.as_str());
    }

    /// Ends the output with an empty line, if its last line is not empty.
    pub fn enforce_spacing(&mut self)
        requires
            old(self).well_formed(),
        ensures
            final(self).well_formed(),
            final(self)@ == (ConsoleView {
                output: if old(self)@.output.len() > 0 && old(self)@.output.last().len() > 0 {
                    old(self)@.output.push(seq![])
                } else {
                    old(self)@.output
                },
                ..old(self)@
            }),
    {
        let k = self.output.len();
        if k > 0 && !self.output[k - 1].as_str().is_empty() {
            let ghost prev = self@.output;
            self.output.push(String::new());
            assert(self@.output =~= prev.push(seq![]));
        }
    }
}

} // verus!
