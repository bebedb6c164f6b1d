//! Splitting an input line into commands and their arguments.
//!
//! A ';' ends a command; spaces, tabs, carriage returns and newlines separate
//! words. There is no quoting: every other character belongs to a word.
use vstd::prelude::*;

use crate::text::{push_char, texts};

verus! {

/// The character separates words.
pub open spec fn is_blank(c: char) -> bool {
    c == ' ' || c == '\t' || c == '\r' || c == '\n'
}

/// The words, with a closed word added when one is open.
pub open spec fn close_word(words: Seq<Seq<char>>, word: Seq<char>) -> Seq<Seq<char>> {
    if word.len() > 0 {
        words.push(word)
    } else {
        words
    }
}

/// The commands, with a closed command added when it has words.
pub open spec fn close_command(
    cmds: Seq<Seq<Seq<char>>>,
    words: Seq<Seq<char>>,
) -> Seq<Seq<Seq<char>>> {
    if words.len() > 0 {
        cmds.push(words)
    } else {
        cmds
    }
}

/// Reading a line character by character: the commands closed so far, the
/// words of the open command, and the open word.
pub open spec fn scan(s: Seq<char>) -> (Seq<Seq<Seq<char>>>, Seq<Seq<char>>, Seq<char>)
    decreases s.len(),
{
    if s.len() == 0 {
        (seq![], seq![], seq![])
    } else {
        let (cmds, words, word) = scan(s.drop_last());
        let c = s.last();
        if c == ';' {
            (close_command(cmds, close_word(words, word)), seq![], seq![])
        } else if is_blank(c) {
            (cmds, close_word(words, word), seq![])
        } else {
            (cmds, words, word.push(c))
        }
    }
}

/// The commands of a line, each as its words: the name, then the arguments.
pub open spec fn spec_parse(s: Seq<char>) -> Seq<Seq<Seq<char>>> {
    let (cmds, words, word) = scan(s);
    close_command(cmds, close_word(words, word))
}

/// A command as typed: its name and its arguments.
pub struct ParsedCommand {
    pub name: String,
    pub args: Vec<String>,
}

impl ParsedCommand {
    /// The words of the command: the name, then the arguments.
    pub open spec fn words(self) -> Seq<Seq<char>> {
        seq![self.name@] + texts(self.args@)
    }
}

fn close_word_vec(words: &mut Vec<String>, word: String)
    ensures
        texts(final(words)@) == close_word(texts(old(words)@), word@),
{
    if !word.as_str().is_empty() {
        let ghost before = texts(words@);
        words.push(word);
        assert(texts(words@) =~= before.push(word@));
    }
}

fn close_command_vec(cmds: &mut Vec<ParsedCommand>, words: Vec<String>)
    ensures
        final(cmds)@.map_values(|c: ParsedCommand| c.words()) == close_command(
            old(cmds)@.map_values(|c: ParsedCommand| c.words()),
            texts(words@),
        ),
{
    if words.len() > 0 {
        let ghost before = cmds@.map_values(|c: ParsedCommand| c.words());
        let mut args = words;
        let name = args.remove(0);
        let c = ParsedCommand { name, args };
        assert(c.words() =~= texts(words@));
        cmds.push(c);
        assert(cmds@.map_values(|c: ParsedCommand| c.words()) =~= before.push(texts(words@)));
    }
}

/// Splits a line into its commands, in order.
pub fn parse(line: &str) -> (r: Vec<ParsedCommand>)
    ensures
        r@.map_values(|c: ParsedCommand| c.words()) == spec_parse(line@),
{
    let n = line.unicode_len();
    let mut cmds: Vec<ParsedCommand> = Vec::new();
    let mut words: Vec<String> = Vec::new();
    let mut word = String::new();
    let mut i: usize = 0;
    assert(cmds@.map_values(|c: ParsedCommand| c.words()) =~= Seq::<Seq<Seq<char>>>::empty());
    assert(texts(words@) =~= Seq::<Seq<char>>::empty());
    while i < n
        invariant
            n == line@.len(),
            i <= n,
            cmds@.map_values(|c: ParsedCommand| c.words()) == scan(line@.take(i as int)).0,
            texts(words@) == scan(line@.take(i as int)).1,
            word@ == scan(line@.take(i as int)).2,
        decreases n - i,
    {
        let c = line.get_char(i);
        proof {
            assert(line@.take(i + 1).drop_last() =~= line@.take(i as int));
            assert(line@.take(i + 1).last() == c);
        }
        if c == ';' {
            close_word_vec(&mut words, word);
            close_command_vec(&mut cmds, words);
            words = Vec::new();
            word = String::new();
            assert(texts(words@) =~= Seq::<Seq<char>>::empty());
        } else if c == ' ' || c == '\t' || c == '\r' || c == '\n' {
            close_word_vec(&mut words, word);
            word = String::new();
        } else {
            push_char(&mut word, c);
        }
        i = i + 1;
    }
    assert(line@.take(n as int) =~= line@);
    close_word_vec(&mut words, word);
    close_command_vec(&mut cmds, words);
    cmds
}

} // verus!
