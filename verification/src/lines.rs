//! The lines of a text.
//!
//! A line ends at a line feed, or at the end of the text. The line feed is
//! not part of the line, and neither is a carriage return that stands right
//! before it. A text that ends in a line feed has no empty line behind it.

use vstd::prelude::*;
use vstd::string::StrSliceExecFns;
use vstd::string::StringExecFns;

use crate::letters::chars_of;

verus! {

/// The character that ends a line.
pub const LINE_FEED: char = '\n';

/// The character that may stand before the end of a line.
pub const CARRIAGE_RETURN: char = '\r';

/// The number of characters from `from` up to the next line feed, or up to
/// the end of the text where there is none.
pub open spec fn line_len(s: Seq<char>, from: int) -> nat
    decreases s.len() - from,
{
    if 0 <= from < s.len() && s[from] != LINE_FEED {
        1 + line_len(s, from + 1)
    } else {
        0
    }
}

/// Where the line that starts at `from` and is cut at `end` stops: before
/// the carriage return, if a line feed at `end` has one in front of it.
pub open spec fn content_end(s: Seq<char>, from: int, end: int) -> int {
    if end < s.len() && from < end && s[end - 1] == CARRIAGE_RETURN {
        end - 1
    } else {
        end
    }
}

/// The lines of the text from `from` on.
pub open spec fn lines_from(s: Seq<char>, from: int) -> Seq<Seq<char>>
    decreases s.len() - from,
{
    if 0 <= from < s.len() {
        let end = from + line_len(s, from);
        let line = s.subrange(from, content_end(s, from, end));
        if end < s.len() {
            seq![line] + lines_from(s, end + 1)
        } else {
            seq![line]
        }
    } else {
        Seq::empty()
    }
}

/// The lines of a text.
pub open spec fn lines_of(s: Seq<char>) -> Seq<Seq<char>> {
    lines_from(s, 0)
}

/// The strings of a sequence as sequences of characters.
pub open spec fn texts(lines: Seq<String>) -> Seq<Seq<char>> {
    lines.map_values(|line: String| line@)
}

/// Cuts a text into its lines.
pub fn split_lines(text: &str) -> (lines: Vec<String>)
    ensures
        texts(lines@) == lines_of(text@),
{
    let cs = chars_of(text);
    let mut lines: Vec<String> = Vec::new();
    let mut from: usize = 0;
    while from < cs.len()
        invariant
            cs@ == text@,
            from <= cs@.len(),
            lines_of(text@) == texts(lines@) + lines_from(text@, from as int),
        decreases cs@.len() - from,
    {
        let mut end = from;
        while end < cs.len() && cs[end] != LINE_FEED
            invariant
                from <= end <= cs@.len(),
                from + line_len(cs@, from as int) == end + line_len(cs@, end as int),
            decreases cs@.len() - end,
        {
            end += 1;
        }
        let stop = if end < cs.len() && from < end && cs[end - 1] == CARRIAGE_RETURN {
            end - 1
        } else {
            end
        };
        let line = String::from_str(text.substring_char(from, stop));
        assert(texts(lines@.push(line)) =~= texts(lines@).push(line@));
        lines.push(line);
        from = if end < cs.len() { end + 1 } else { end };
    }
    lines
}

} // verus!
