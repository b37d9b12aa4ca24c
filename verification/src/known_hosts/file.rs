//! The file in which the known hosts are kept.
//!
//! A line holds a host and its public key, with a space between. Empty lines and lines that begin
//! with `#` are passed over.

use crate::keys;
use crate::text;
use vstd::prelude::*;
use vstd::utf8::*;

verus! {

/// A known host: its key, and the number of hosts that were known when it was added, plus one.
pub struct EntryView {
    pub line_num: nat,
    pub key: Seq<char>,
}

/// The known hosts, by name.
pub type Hosts = Map<Seq<char>, EntryView>;

/// Why a file cannot be read.
pub enum ReadErrorView {
    /// A line is not text.
    NotUtf8,
    /// A line has no space. `line` is the number of hosts read before it, plus one.
    MissingSpace { line: nat },
    /// What stands behind the space is no public key; with how the error reads.
    Key(Seq<char>),
}

/// The position of the first line feed, or the length where there is none.
pub open spec fn line_end(bytes: Seq<u8>) -> int
    decreases bytes.len(),
{
    if bytes.len() == 0 || bytes[0] == 10 {
        0
    } else {
        1 + line_end(bytes.drop_first())
    }
}

/// A line without the carriage return at its end, where it has one.
pub open spec fn strip_cr(line: Seq<u8>) -> Seq<u8> {
    if line.len() > 0 && line.last() == 13 {
        line.drop_last()
    } else {
        line
    }
}

/// The lines of a file. A line ends in a line feed, or in a carriage return and a line feed; the
/// last one may end without.
pub open spec fn file_lines(bytes: Seq<u8>) -> Seq<Seq<u8>>
    decreases bytes.len(),
{
    if bytes.len() == 0 {
        seq![]
    } else if line_end(bytes) < bytes.len() {
        proof {
            lemma_line_end(bytes);
        }
        seq![strip_cr(bytes.take(line_end(bytes)))] + file_lines(bytes.skip(line_end(bytes) + 1))
    } else {
        seq![bytes]
    }
}

/// Whether a line is passed over.
pub open spec fn is_passed_over(line: Seq<char>) -> bool {
    line.len() == 0 || line[0] == '#'
}

/// The hosts with one more, or with another key for it.
pub open spec fn add_host(hosts: Hosts, host: Seq<char>, key: Seq<char>) -> Hosts {
    hosts.insert(host, EntryView { line_num: hosts.dom().len() + 1, key })
}

/// The hosts once a line was read.
pub open spec fn read_line(hosts: Hosts, line: Seq<u8>) -> Result<Hosts, ReadErrorView> {
    if !valid_utf8(line) {
        Err(ReadErrorView::NotUtf8)
    } else {
        let text = decode_utf8(line);
        if is_passed_over(text) {
            Ok(hosts)
        } else {
            match text.index_of_first(' ') {
                None => Err(ReadErrorView::MissingSpace { line: hosts.dom().len() + 1 }),
                Some(n) => match keys::openssh_key(text.skip(n + 1)) {
                    Err(e) => Err(ReadErrorView::Key(e)),
                    Ok(key) => Ok(add_host(hosts, text.take(n), key)),
                },
            }
        }
    }
}

/// The hosts once some lines were read, one after the other, up to the first error.
pub open spec fn read_lines(hosts: Hosts, lines: Seq<Seq<u8>>) -> Result<Hosts, ReadErrorView>
    decreases lines.len(),
{
    if lines.len() == 0 {
        Ok(hosts)
    } else {
        match read_line(hosts, lines[0]) {
            Err(e) => Err(e),
            Ok(after) => read_lines(after, lines.drop_first()),
        }
    }
}

/// The hosts that a file holds.
pub open spec fn read_file(bytes: Seq<u8>) -> Result<Hosts, ReadErrorView> {
    read_lines(Map::empty(), file_lines(bytes))
}

/// The line that is written for a host.
pub open spec fn host_line(host: Seq<char>, key: Seq<char>) -> Seq<char> {
    host + " "@ + key + "\n"@
}

/// How an error reads.
pub open spec fn read_error_text(error: ReadErrorView) -> Seq<char> {
    match error {
        ReadErrorView::NotUtf8 => "stream did not contain valid UTF-8"@,
        ReadErrorView::MissingSpace { line } => {
            "missing space between host and public key in line "@ + text::decimal(line)
        },
        ReadErrorView::Key(e) => e,
    }
}

/// What the position of the first line feed is.
pub proof fn lemma_line_end(bytes: Seq<u8>)
    ensures
        0 <= line_end(bytes) <= bytes.len(),
        forall|j: int| 0 <= j < line_end(bytes) ==> bytes[j] != 10,
        line_end(bytes) < bytes.len() ==> bytes[line_end(bytes)] == 10,
    decreases bytes.len(),
{
    if bytes.len() > 0 && bytes[0] != 10 {
        lemma_line_end(bytes.drop_first());
        assert forall|j: int| 0 <= j < line_end(bytes) implies bytes[j] != 10 by {
            if j > 0 {
                assert(bytes.drop_first()[j - 1] == bytes[j]);
            }
        }
        assert(line_end(bytes) < bytes.len() ==> bytes[line_end(bytes)]
            == bytes.drop_first()[line_end(bytes) - 1]);
    }
}

/// A position with these properties is that of the first line feed.
pub proof fn lemma_line_end_is(bytes: Seq<u8>, n: int)
    requires
        0 <= n <= bytes.len(),
        forall|j: int| 0 <= j < n ==> bytes[j] != 10,
        n < bytes.len() ==> bytes[n] == 10,
    ensures
        line_end(bytes) == n,
{
    lemma_line_end(bytes);
    let m = line_end(bytes);
    if m < n {
        assert(bytes[m] == 10);
    }
}

/// Where a text is split at its first space.
pub proof fn lemma_first_space(text: Seq<char>, head: Seq<char>, tail: Seq<char>)
    requires
        text == head.push(' ') + tail,
        !head.contains(' '),
    ensures
        text.index_of_first(' ') == Some(head.len() as int),
        text.take(head.len() as int) == head,
        text.skip(head.len() as int + 1) == tail,
{
    let n = head.len() as int;
    assert(text[n] == ' ');
    text.index_of_first_ensures(' ');
    let i = text.index_of_first(' ')->0;
    if i < n {
        assert(head[i] == text[i]);
    }
    assert(text.take(n) =~= head);
    assert(text.skip(n + 1) =~= tail);
}

} // verus!
