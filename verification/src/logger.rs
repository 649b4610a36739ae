//! What is written to the log: one line per message, each behind the time
//! it was written at, and blocks of output as indented lines.
use crate::text::{find_char, lemma_find_char, lemma_find_char_skips, to_chars};
use vstd::prelude::*;

verus! {

/// A log line: the time in square brackets, a space and the message.
pub open spec fn entry_text(timestamp: Seq<char>, message: Seq<char>) -> Seq<char> {
    "["@ + timestamp + "] "@ + message
}

/// Write a single log line with a timestamp prefix: the text of the line,
/// without its line ending.
pub fn log_line(timestamp: &str, message: &str) -> (line: String)
    ensures
        line@ == entry_text(timestamp@, message@),
{
    let mut line = "[".to_owned();
    line.append(timestamp);
    line.append("] ");
    line.append(message);
    line
}

/// Index of the first line feed of `s` at or after `from`, or the length of
/// `s` where there is none.
pub open spec fn line_end(s: Seq<char>, from: int) -> int {
    find_char(s, from, '\n')
}

/// A line without the carriage return that ended it, if one did.
pub open spec fn strip_return(line: Seq<char>) -> Seq<char> {
    if line.len() > 0 && line.last() == '\r' {
        line.drop_last()
    } else {
        line
    }
}

/// The lines of `s` from index `from` on. A line ends at a line feed, and
/// a carriage return just before that line feed is not part of the line.
/// What follows the last line feed is a line if it is not empty.
pub open spec fn lines_from(s: Seq<char>, from: int) -> Seq<Seq<char>>
    decreases s.len() - from,
{
    if from < 0 || from >= s.len() {
        Seq::empty()
    } else {
        let end = line_end(s, from);
        if from <= end < s.len() {
            seq![strip_return(s.subrange(from, end))] + lines_from(s, end + 1)
        } else {
            seq![s.subrange(from, s.len() as int)]
        }
    }
}

/// The lines of `s`.
pub open spec fn lines_of(s: Seq<char>) -> Seq<Seq<char>> {
    lines_from(s, 0)
}

/// The lines of a text.
pub fn lines(s: &str) -> (out: Vec<String>)
    ensures
        out.deep_view() == lines_of(s@),
{
    let chars = to_chars(s);
    let n = chars.len();
    let mut out: Vec<String> = Vec::new();
    let mut start: usize = 0;
    let mut i: usize = 0;
    while i < n
        invariant
            chars@ == s@,
            n == chars.len(),
            start <= i <= n,
            forall|k: int| start <= k < i ==> s@[k] != '\n',
            lines_of(s@) == out.deep_view() + lines_from(s@, start as int),
        decreases n - i,
    {
        if chars[i] == '\n' {
            proof {
                lemma_find_char_skips(s@, start as int, i as int, '\n');
                lemma_find_char(s@, i as int, '\n');
            }
            let mut end = i;
            if end > start && chars[end - 1] == '\r' {
                end = end - 1;
            }
            let line = s.substring_char(start, end).to_owned();
            let ghost text = line@;
            out.push(line);
            proof {
                let whole = s@.subrange(start as int, i as int);
                assert(text =~= strip_return(whole));
            }
            start = i + 1;
        }
        i += 1;
    }
    if start < n {
        proof {
            lemma_find_char_skips(s@, start as int, n as int, '\n');
            lemma_find_char(s@, n as int, '\n');
        }
        let line = s.substring_char(start, n).to_owned();
        out.push(line);
    }
    out
}

/// The messages of a block: the header, then each line of the body behind
/// four spaces.
pub open spec fn block_text(header: Seq<char>, body: Seq<char>) -> Seq<Seq<char>> {
    seq![header] + Seq::new(lines_of(body).len(), |i: int| "    "@ + lines_of(body)[i])
}

/// Write a message followed by an indented multiline block: the messages
/// to log, in order.
pub fn log_block(header: &str, body: &str) -> (out: Vec<String>)
    ensures
        out.deep_view() == block_text(header@, body@),
{
    let body_lines = lines(body);
    let mut out: Vec<String> = Vec::new();
    out.push(header.to_owned());
    let mut i: usize = 0;
    while i < body_lines.len()
        invariant
            i <= body_lines.len(),
            body_lines.deep_view() == lines_of(body@),
            out.len() == i + 1,
            out[0]@ == header@,
            forall|k: int| 0 <= k < i ==> out[k + 1]@ == "    "@ + lines_of(body@)[k],
        decreases body_lines.len() - i,
    {
        let mut line = "    ".to_owned();
        line.append(body_lines[i].as_str());
        out.push(line);
        i += 1;
    }
    out
}

} // verus!
