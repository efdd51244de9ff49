//! The commands of the interactive shell: what a line of input asks for.
//!
//! Reading lines and acting on commands is the shell's business. What a line
//! means is decided here.

use crate::text::{chars_of, has_prefix};
use vstd::prelude::*;
use vstd::string::*;
use vstd::utf8::encode_utf8;

verus! {

/// What a line of input asks for.
#[derive(Clone, Debug, PartialEq, Eq)]
pub enum Command {
    /// Show the list of commands.
    Help,
    /// Leave the shell.
    Quit,
    /// Add a record with these bytes as its payload.
    Add(Vec<u8>),
    /// Show every record.
    List,
    /// Anything else.
    Unknown,
}

/// What a command holds.
pub enum CommandView {
    Help,
    Quit,
    Add(Seq<u8>),
    List,
    Unknown,
}

impl View for Command {
    type V = CommandView;

    open spec fn view(&self) -> CommandView {
        match *self {
            Command::Help => CommandView::Help,
            Command::Quit => CommandView::Quit,
            Command::Add(payload) => CommandView::Add(payload@),
            Command::List => CommandView::List,
            Command::Unknown => CommandView::Unknown,
        }
    }
}

/// Whether `char::is_whitespace` holds of `c`: whether `c` has the Unicode
/// property `White_Space`.
pub uninterp spec fn white_space(c: char) -> bool;

/// Calls `char::is_whitespace`. Trusted: nothing but that the answer depends
/// on the character alone.
#[verifier::external_body]
fn is_whitespace(c: char) -> (r: bool)
    ensures
        r == white_space(c),
{
    c.is_whitespace()
}

/// `text` without the whitespace it begins with.
pub open spec fn trimmed_start(text: Seq<char>) -> Seq<char>
    decreases text.len(),
{
    if text.len() > 0 && white_space(text.first()) {
        trimmed_start(text.drop_first())
    } else {
        text
    }
}

/// `text` without the whitespace it ends with.
pub open spec fn trimmed_end(text: Seq<char>) -> Seq<char>
    decreases text.len(),
{
    if text.len() > 0 && white_space(text.last()) {
        trimmed_end(text.drop_last())
    } else {
        text
    }
}

/// `text` without the whitespace around it.
pub open spec fn trimmed(text: Seq<char>) -> Seq<char> {
    trimmed_end(trimmed_start(text))
}

/// What the line `line` asks for. The whitespace around the line does not
/// count. `add` takes the rest of the line after one space as the payload, in
/// UTF-8; without anything after it, `add` is no command.
pub open spec fn parsed(line: Seq<char>) -> CommandView {
    let word = trimmed(line);
    if word == "help"@ {
        CommandView::Help
    } else if word == "quit"@ || word == "exit"@ {
        CommandView::Quit
    } else if has_prefix(word, "add "@) {
        CommandView::Add(encode_utf8(word.skip(4)))
    } else if word == "list"@ {
        CommandView::List
    } else {
        CommandView::Unknown
    }
}

/// Where the trimmed text lies in `chars`: from the first index to the
/// second.
fn trim_bounds(chars: &Vec<char>) -> (bounds: (usize, usize))
    ensures
        bounds.0 <= bounds.1 <= chars.len(),
        chars@.subrange(bounds.0 as int, bounds.1 as int) == trimmed(chars@),
{
    let n = chars.len();
    let mut start: usize = 0;
    assert(chars@.skip(0) =~= chars@);
    while start < n && is_whitespace(chars[start])
        invariant
            n == chars.len(),
            start <= n,
            trimmed_start(chars@) == trimmed_start(chars@.skip(start as int)),
        decreases n - start,
    {
        assert(chars@.skip(start as int).drop_first() =~= chars@.skip(start + 1));
        start += 1;
    }
    let mut end: usize = n;
    while end > start && is_whitespace(chars[end - 1])
        invariant
            start <= end <= n,
            n == chars.len(),
            trimmed(chars@) == trimmed_end(chars@.subrange(start as int, end as int)),
        decreases end - start,
    {
        assert(chars@.subrange(start as int, end as int).drop_last() =~= chars@.subrange(
            start as int,
            end - 1,
        ));
        end -= 1;
    }
    (start, end)
}

/// Whether the characters of `chars` from `start` to `end` spell `word`.
fn spells(chars: &Vec<char>, start: usize, end: usize, word: &str) -> (r: bool)
    requires
        start <= end <= chars.len(),
    ensures
        r == (chars@.subrange(start as int, end as int) == word@),
{
    let letters = chars_of(word);
    if letters.len() != end - start {
        return false;
    }
    let mut i: usize = 0;
    while i < letters.len()
        invariant
            start <= end <= chars.len(),
            letters@ == word@,
            letters.len() == end - start,
            i <= letters.len(),
            chars@.subrange(start as int, start + i) == letters@.subrange(0, i as int),
        decreases letters.len() - i,
    {
        if chars[start + i] != letters[i] {
            return false;
        }
        i += 1;
    }
    assert(letters@.subrange(0, i as int) =~= letters@);
    true
}

/// Reads a line of input as a command.
pub fn parse_command(line: &str) -> (command: Command)
    ensures
        command@ == parsed(line@),
{
    let chars = chars_of(line);
    let (start, end) = trim_bounds(&chars);
    let ghost word = trimmed(line@);
    proof {
        reveal_strlit("add ");
    }
    if spells(&chars, start, end, "help") {
        Command::Help
    } else if spells(&chars, start, end, "quit") || spells(&chars, start, end, "exit") {
        Command::Quit
    } else if end - start >= 4 && spells(&chars, start, start + 4, "add ") {
        assert(word.subrange(0, 4) =~= chars@.subrange(start as int, start + 4));
        assert(word.skip(4) =~= line@.subrange(start + 4, end as int));
        let payload = line.substring_char(start + 4, end).as_bytes_vec();
        Command::Add(payload)
    } else {
        assert(!has_prefix(word, "add "@)) by {
            if end - start >= 4 {
                assert(word.subrange(0, 4) =~= chars@.subrange(start as int, start + 4));
            }
        }
        if spells(&chars, start, end, "list") {
            Command::List
        } else {
            Command::Unknown
        }
    }
}

} // verus!
