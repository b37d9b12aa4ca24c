//! What holds of the known hosts as a whole.

use super::file;
use super::file::{EntryView, Hosts, ReadErrorView};
use super::trust;
use super::trust::{HostActionView, HostErrorView, HostStep};
use super::{Entry, HostAction, HostError, ReadError};
use crate::keys;
use crate::known_hosts;
use crate::str_map::StrMap;
use vstd::prelude::*;
use vstd::utf8::*;

verus! {

/// A host shows a key, and the user, where asked, accepts it or does not.
pub open spec fn meeting(hosts: Hosts, host: Seq<char>, key: Seq<char>, accept: bool) -> HostStep {
    let first = trust::on_host_key(hosts, host, key);
    match first.waiting {
        Some(w) => trust::on_answer(first.hosts, w.host, w.key, accept),
        None => first,
    }
}

/// A host and a key that fit on a line: neither holds a line feed, and the host holds no space
/// and does not begin with `#`.
pub open spec fn fits_on_line(host: Seq<char>, key: Seq<char>) -> bool {
    &&& !host.contains('\n')
    &&& !host.contains(' ')
    &&& (host.len() > 0 ==> host[0] != '#')
    &&& !key.contains('\n')
}

/// A known host is judged by its known key alone: the same key is taken, any other is refused,
/// nobody is asked, and what is known stays.
pub proof fn law_known_host_is_judged_by_its_key(
    hosts: Hosts,
    host: Seq<char>,
    key: Seq<char>,
    accept: bool,
)
    requires
        hosts.contains_key(host),
    ensures
        meeting(hosts, host, key, accept) == (HostStep {
            hosts,
            waiting: None,
            action: HostActionView::Reply(
                if hosts[host].key == key {
                    Ok(())
                } else {
                    Err(HostErrorView::KeyChanged { host })
                },
            ),
        }),
{
}

/// The key that the user accepts on first sight is the key of the host from then on: it is taken
/// without asking, and any other is refused.
pub proof fn law_accepted_key_is_trusted(
    hosts: Hosts,
    host: Seq<char>,
    key: Seq<char>,
    later_key: Seq<char>,
    later_accept: bool,
)
    requires
        !hosts.contains_key(host),
    ensures
        ({
            let after = meeting(hosts, host, key, true).hosts;
            let again = meeting(after, host, later_key, later_accept);
            &&& again.hosts == after
            &&& again.waiting is None
            &&& again.action == HostActionView::Reply(
                if later_key == key {
                    Ok(())
                } else {
                    Err(HostErrorView::KeyChanged { host })
                },
            )
        }),
{
}

/// A key is taken exactly where it is the known key of the host, or where the host is not known and
/// the user accepts the key.
pub proof fn law_taken_exactly_if_known_or_accepted(
    hosts: Hosts,
    host: Seq<char>,
    key: Seq<char>,
    accept: bool,
)
    ensures
        ({
            let action = meeting(hosts, host, key, accept).action;
            &&& (action == HostActionView::Reply(Ok(())) || action is Append) <==> {
                ||| hosts.contains_key(host) && hosts[host].key == key
                ||| !hosts.contains_key(host) && accept
            }
            &&& action == HostActionView::Reply(Ok(())) ==> hosts.contains_key(host)
        }),
{
}

/// The user is asked about a host that is not known, and about this key of this host. Where the user
/// rejects it, the answer is that the host is rejected, with the fingerprint of this key, whatever
/// hosts are known, and these stay. Where the user accepts it, the line for this host and this key
/// is written, and the host is known by this key besides those that were.
pub proof fn law_new_host_is_asked_about(
    hosts: Hosts,
    host: Seq<char>,
    key: Seq<char>,
    other: Seq<char>,
)
    requires
        !hosts.contains_key(host),
    ensures
        ({
            let asked = trust::on_host_key(hosts, host, key);
            let rejected = meeting(hosts, host, key, false);
            let accepted = meeting(hosts, host, key, true);
            &&& asked.hosts == hosts
            &&& asked.waiting matches Some(w) && w.host == host && w.key == key
            &&& asked.action == (HostActionView::AskAcceptKey { host, key })
            &&& rejected.hosts == hosts
            &&& rejected.waiting is None
            &&& rejected.action == HostActionView::Reply(
                Err(
                    HostErrorView::Rejected { host, fingerprint: keys::sha256_fingerprint(key) },
                ),
            )
            &&& accepted.waiting is None
            &&& accepted.action == (HostActionView::Append { line: host + " "@ + key + "\n"@ })
            &&& accepted.hosts.contains_key(other) == (other == host || hosts.contains_key(other))
            &&& accepted.hosts[host].key == key
            &&& accepted.hosts[host].line_num == hosts.dom().len() + 1
            &&& other != host ==> accepted.hosts[other] == hosts[other]
        }),
{
}

/// The user's answer decides about the key that waits, whatever is known.
pub proof fn law_answer_decides(hosts: Hosts, host: Seq<char>, key: Seq<char>, accept: bool)
    ensures
        ({
            let step = trust::on_answer(hosts, host, key, accept);
            &&& step.waiting is None
            &&& accept ==> step.action == (HostActionView::Append {
                line: host + " "@ + key + "\n"@,
            })
            &&& accept ==> step.hosts == hosts.insert(
                host,
                EntryView { line_num: hosts.dom().len() + 1, key },
            )
            &&& !accept ==> step.hosts == hosts && step.action == HostActionView::Reply(
                Err(
                    HostErrorView::Rejected { host, fingerprint: keys::sha256_fingerprint(key) },
                ),
            )
        }),
{
}

/// What is known stays: no meeting changes or drops an entry, and only a host that the user
/// accepts is added.
pub proof fn law_known_hosts_stay(
    hosts: Hosts,
    host: Seq<char>,
    key: Seq<char>,
    accept: bool,
    other: Seq<char>,
)
    ensures
        ({
            let after = meeting(hosts, host, key, accept).hosts;
            &&& hosts.contains_key(other) ==> after.contains_key(other) && after[other]
                == hosts[other]
            &&& after.contains_key(other) && !hosts.contains_key(other) ==> accept && other == host
                && after[other].key == key
        }),
{
}

/// The file is written exactly where a host is added, and the line that is written is the one
/// for that host.
pub proof fn law_written_exactly_when_added(
    hosts: Hosts,
    host: Seq<char>,
    key: Seq<char>,
    accept: bool,
)
    ensures
        ({
            let last = meeting(hosts, host, key, accept);
            &&& last.waiting is None
            &&& (last.action is Append) == (last.hosts != hosts)
            &&& last.action is Append ==> last.action == HostActionView::Append {
                line: host + " "@ + key + "\n"@,
            }
        }),
{
    let last = meeting(hosts, host, key, accept);
    if last.action is Append {
        assert(last.hosts.contains_key(host));
    }
}

/// The encoding of a text that is put together is put together from the encodings.
proof fn lemma_encode_concat(a: Seq<char>, b: Seq<char>)
    ensures
        encode_utf8(a + b) == encode_utf8(a) + encode_utf8(b),
    decreases a.len(),
{
    if a.len() == 0 {
        assert(a + b =~= b);
        assert(encode_utf8(a) + encode_utf8(b) =~= encode_utf8(b));
    } else {
        assert((a + b).drop_first() =~= a.drop_first() + b);
        lemma_encode_concat(a.drop_first(), b);
        assert(encode_utf8(a + b) =~= encode_utf8(a) + encode_utf8(b));
    }
}

/// A line feed is encoded as one byte, and no other character has that byte in its encoding; the
/// same holds of a carriage return.
proof fn lemma_scalar_bytes(c: char)
    ensures
        encode_scalar(c as u32).len() > 0,
        c == '\n' ==> encode_scalar(c as u32) == seq![10u8],
        forall|i: int|
            0 <= i < encode_scalar(c as u32).len() ==> {
                let byte = #[trigger] encode_scalar(c as u32)[i];
                (byte == 10 ==> c == '\n') && (byte == 13 ==> c == '\r')
            },
{
    let s = c as u32;
    char_is_scalar(c);
    if has_width_1_encoding(s) {
        assert(leading_byte_width_1(s) == s) by (bit_vector)
            requires
                s < 0x80,
        ;
    } else {
        assert(leading_byte_width_2(s) >= 0x80) by (bit_vector);
        assert(leading_byte_width_3(s) >= 0x80) by (bit_vector);
        assert(leading_byte_width_4(s) >= 0x80) by (bit_vector);
        assert(last_continuation_byte(s) >= 0x80) by (bit_vector);
        assert(second_last_continuation_byte(s) >= 0x80) by (bit_vector);
        assert(third_last_continuation_byte(s) >= 0x80) by (bit_vector);
    }
}

/// The encoding of a text of one character.
proof fn lemma_encode_one(c: char)
    ensures
        encode_utf8(seq![c]) == encode_scalar(c as u32),
{
    let text = seq![c];
    assert(text.drop_first() =~= Seq::<char>::empty());
    assert(encode_utf8(text.drop_first()) =~= Seq::<u8>::empty());
    assert(encode_utf8(text) =~= encode_scalar(c as u32));
}

/// A text without a line feed is encoded without the byte of one.
proof fn lemma_no_line_feed(text: Seq<char>)
    requires
        !text.contains('\n'),
    ensures
        forall|i: int| 0 <= i < encode_utf8(text).len() ==> encode_utf8(text)[i] != 10,
    decreases text.len(),
{
    if text.len() > 0 {
        let rest = text.drop_first();
        assert forall|c: char| rest.contains(c) implies text.contains(c) by {
            let i = choose|i: int| 0 <= i < rest.len() && rest[i] == c;
            assert(text[i + 1] == c);
        }
        lemma_no_line_feed(rest);
        lemma_scalar_bytes(text[0]);
        assert(text[0] != '\n');
        let head = encode_scalar(text[0] as u32);
        assert forall|i: int| 0 <= i < encode_utf8(text).len() implies encode_utf8(text)[i]
            != 10 by {
            if i < head.len() {
                assert(encode_utf8(text)[i] == head[i]);
            } else {
                assert(encode_utf8(text)[i] == encode_utf8(rest)[i - head.len()]);
            }
        }
    }
}

/// A text that does not end in a carriage return is encoded to bytes that do not either.
proof fn lemma_no_carriage_return(text: Seq<char>)
    requires
        text.len() > 0,
        text.last() != '\r',
    ensures
        encode_utf8(text).len() > 0,
        encode_utf8(text).last() != 13,
{
    let last = seq![text.last()];
    assert(text =~= text.drop_last() + last);
    lemma_encode_concat(text.drop_last(), last);
    lemma_scalar_bytes(text.last());
    lemma_encode_one(text.last());
    assert(encode_utf8(text).last() == encode_utf8(last).last());
}

/// The lines of a file that is appended to another one, of which the last line is ended.
proof fn lemma_lines_concat(a: Seq<u8>, b: Seq<u8>)
    requires
        a.len() == 0 || a.last() == 10,
    ensures
        file::file_lines(a + b) == file::file_lines(a) + file::file_lines(b),
    decreases a.len(),
{
    if a.len() == 0 {
        assert(a + b =~= b);
        assert(file::file_lines(a) + file::file_lines(b) =~= file::file_lines(b));
    } else {
        file::lemma_line_end(a);
        let n = file::line_end(a);
        if n == a.len() {
            assert(a[a.len() - 1] == 10);
        }
        assert(forall|j: int| 0 <= j < a.len() ==> (a + b)[j] == a[j]);
        file::lemma_line_end_is(a + b, n);
        assert((a + b).take(n) =~= a.take(n));
        assert((a + b).skip(n + 1) =~= a.skip(n + 1) + b);
        let rest = a.skip(n + 1);
        assert(rest.len() > 0 ==> rest.last() == a.last());
        lemma_lines_concat(rest, b);
        assert(file::file_lines(a + b) =~= file::file_lines(a) + file::file_lines(b));
    }
}

/// Reading lines in two parts.
proof fn lemma_read_concat(hosts: Hosts, a: Seq<Seq<u8>>, b: Seq<Seq<u8>>)
    ensures
        file::read_lines(hosts, a + b) == match file::read_lines(hosts, a) {
            Ok(after) => file::read_lines(after, b),
            Err(e) => Err(e),
        },
    decreases a.len(),
{
    if a.len() == 0 {
        assert(a + b =~= b);
    } else {
        assert((a + b).drop_first() =~= a.drop_first() + b);
        match file::read_line(hosts, a[0]) {
            Ok(after) => {
                lemma_read_concat(after, a.drop_first(), b);
            },
            Err(_) => {},
        }
    }
}

/// A host that is written to the file is read back from it, with its key: reading the file with
/// the line appended gives what was known with the host added. The file's last line must be ended;
/// the file then ends in an ended line again.
pub proof fn law_written_host_is_read_back(
    bytes: Seq<u8>,
    hosts: Hosts,
    host: Seq<char>,
    key: Seq<char>,
)
    requires
        file::read_file(bytes) == Ok::<Hosts, ReadErrorView>(hosts),
        bytes.len() == 0 || bytes.last() == 10,
        keys::is_openssh(key),
        fits_on_line(host, key),
    ensures
        ({
            let written = bytes + encode_utf8(host + " "@ + key + "\n"@);
            &&& file::read_file(written) == Ok::<Hosts, ReadErrorView>(
                hosts.insert(host, EntryView { line_num: hosts.dom().len() + 1, key }),
            )
            &&& written.last() == 10
        }),
{
    reveal_strlit(" ");
    reveal_strlit("\n");
    let text = host.push(' ') + key;
    let line = encode_utf8(text);
    let added = encode_utf8(file::host_line(host, key));
    assert(file::host_line(host, key) =~= text + seq!['\n']);
    lemma_encode_concat(text, seq!['\n']);
    lemma_scalar_bytes('\n');
    lemma_encode_one('\n');
    assert(encode_utf8(seq!['\n']) =~= seq![10u8]);
    assert(added == line + seq![10u8]);
    assert(!text.contains('\n')) by {
        if text.contains('\n') {
            let i = choose|i: int| 0 <= i < text.len() && text[i] == '\n';
            if i < host.len() {
                assert(host[i] == '\n');
            } else if i > host.len() {
                assert(key[i - host.len() - 1] == '\n');
            }
        }
    }
    lemma_no_line_feed(text);
    assert(text.last() == key.last());
    lemma_no_carriage_return(text);
    file::lemma_line_end_is(added, line.len() as int);
    assert(added.take(line.len() as int) =~= line);
    assert(added.skip(line.len() as int + 1) =~= Seq::<u8>::empty());
    assert(file::strip_cr(line) == line);
    assert(file::file_lines(added.skip(line.len() as int + 1)) =~= Seq::<Seq<u8>>::empty());
    assert(file::file_lines(added) =~= seq![line]);
    encode_utf8_valid_utf8(text);
    encode_utf8_decode_utf8(text);
    file::lemma_first_space(text, host, key);
    assert(text[0] == if host.len() > 0 {
        host[0]
    } else {
        ' '
    });
    assert(file::read_line(hosts, line) == Ok::<Hosts, ReadErrorView>(
        file::add_host(hosts, host, key),
    ));
    assert(seq![line].drop_first() =~= Seq::<Seq<u8>>::empty());
    assert(file::read_lines(hosts, seq![line]) == Ok::<Hosts, ReadErrorView>(
        file::add_host(hosts, host, key),
    )) by {
        reveal_with_fuel(file::read_lines, 2);
    }
    lemma_lines_concat(bytes, added);
    lemma_read_concat(Map::empty(), file::file_lines(bytes), seq![line]);
}

/// The one line that a text without a line feed is, with or without a line feed behind it.
proof fn lemma_one_line(line: Seq<u8>)
    requires
        forall|i: int| 0 <= i < line.len() ==> line[i] != 10,
    ensures
        file::file_lines(line + seq![10u8]) == seq![file::strip_cr(line)],
        line.len() > 0 ==> file::file_lines(line) == seq![line],
{
    let ended = line + seq![10u8];
    file::lemma_line_end_is(ended, line.len() as int);
    assert(ended.take(line.len() as int) =~= line);
    assert(ended.skip(line.len() as int + 1) =~= Seq::<u8>::empty());
    assert(file::file_lines(Seq::<u8>::empty()) =~= Seq::<Seq<u8>>::empty());
    assert(file::file_lines(ended) =~= seq![file::strip_cr(line)]);
    file::lemma_line_end_is(line, line.len() as int);
}

/// A file is read line by line: one more line, behind lines that were read and ended, is passed over
/// where it is empty or begins with `#`, and else adds the host before its first space with the key
/// behind it. The last line may end without a line feed; before a line feed, a carriage return
/// belongs to the end of the line. A line that is not text, has no space or holds no key is an
/// error, with the number of hosts that were read before it, or with what is wrong with the key.
pub proof fn law_file_is_read_line_by_line(
    bytes: Seq<u8>,
    hosts: Hosts,
    line: Seq<u8>,
    ended: bool,
    host: Seq<char>,
    key_text: Seq<char>,
)
    requires
        file::read_file(bytes) == Ok::<Hosts, ReadErrorView>(hosts),
        bytes.len() == 0 || bytes.last() == 10,
        forall|i: int| 0 <= i < line.len() ==> line[i] != 10,
        ended || line.len() > 0,
    ensures
        ({
            let all = bytes + line + if ended {
                seq![10u8]
            } else {
                seq![]
            };
            let content = if ended && line.len() > 0 && line.last() == 13 {
                line.drop_last()
            } else {
                line
            };
            let text = decode_utf8(content);
            let read = file::read_file(all);
            &&& !valid_utf8(content) ==> read == Err::<Hosts, ReadErrorView>(ReadErrorView::NotUtf8)
            &&& valid_utf8(content) && (text.len() == 0 || text[0] == '#') ==> read == Ok::<
                Hosts,
                ReadErrorView,
            >(hosts)
            &&& valid_utf8(content) && text.len() > 0 && text[0] != '#' ==> {
                &&& !text.contains(' ') ==> read == Err::<Hosts, ReadErrorView>(
                    ReadErrorView::MissingSpace { line: hosts.dom().len() + 1 },
                )
                &&& text == host + seq![' '] + key_text && !host.contains(' ') ==> read
                    == match keys::openssh_key(key_text) {
                    Err(e) => Err::<Hosts, ReadErrorView>(ReadErrorView::Key(e)),
                    Ok(key) => Ok(
                        hosts.insert(host, EntryView { line_num: hosts.dom().len() + 1, key }),
                    ),
                }
            }
        }),
{
    let content = if ended && line.len() > 0 && line.last() == 13 {
        line.drop_last()
    } else {
        line
    };
    let text = decode_utf8(content);
    let added = line + if ended {
        seq![10u8]
    } else {
        seq![]
    };
    lemma_one_line(line);
    if !ended {
        assert(added =~= line);
    }
    assert(file::file_lines(added) =~= seq![content]);
    assert(bytes + line + if ended {
        seq![10u8]
    } else {
        seq![]
    } =~= bytes + added);
    lemma_lines_concat(bytes, added);
    lemma_read_concat(Map::empty(), file::file_lines(bytes), seq![content]);
    assert(seq![content].drop_first() =~= Seq::<Seq<u8>>::empty());
    assert(file::read_lines(hosts, seq![content]) == file::read_line(hosts, content)) by {
        reveal_with_fuel(file::read_lines, 2);
    }
    text.index_of_first_ensures(' ');
    if text == host + seq![' '] + key_text && !host.contains(' ') {
        assert(text =~= host.push(' ') + key_text);
        file::lemma_first_space(text, host, key_text);
    }
}

/// An empty file holds no host, and the first error counts: what stands behind it is not read.
pub proof fn law_first_error_counts(bytes: Seq<u8>, more: Seq<u8>, e: ReadErrorView)
    requires
        bytes.len() == 0 || bytes.last() == 10,
    ensures
        file::read_file(Seq::<u8>::empty()) == Ok::<Hosts, ReadErrorView>(Map::empty()),
        file::read_file(bytes) == Err::<Hosts, ReadErrorView>(e) ==> file::read_file(bytes + more)
            == Err::<Hosts, ReadErrorView>(e),
{
    lemma_lines_concat(bytes, more);
    lemma_read_concat(Map::empty(), file::file_lines(bytes), file::file_lines(more));
}

/// Entries, errors and actions read, over plain sequences, as what they are.
pub proof fn law_views_of_hosts(
    entry: Entry,
    read_error: ReadError,
    host_error: HostError,
    action: HostAction,
    hosts: StrMap<Entry>,
)
    ensures
        entry@.line_num == entry.line_num,
        entry@.key == entry.key@,
        match read_error {
            ReadError::NotUtf8 => read_error@ is NotUtf8,
            ReadError::MissingSpace { line } => read_error@ == (ReadErrorView::MissingSpace {
                line: line as nat,
            }),
            ReadError::Key(e) => read_error@ == ReadErrorView::Key(e@),
        },
        match host_error {
            HostError::KeyChanged { host } => host_error@ == (HostErrorView::KeyChanged {
                host: host@,
            }),
            HostError::Rejected { host, fingerprint } => host_error@ == (HostErrorView::Rejected {
                host: host@,
                fingerprint: fingerprint@,
            }),
        },
        match action {
            HostAction::AskAcceptKey(question) => action@ == (HostActionView::AskAcceptKey {
                host: question.host@,
                key: question.key@,
            }),
            HostAction::Append { line } => action@ == (HostActionView::Append { line: line@ }),
            HostAction::Reply(Ok(())) => action@ == HostActionView::Reply(Ok(())),
            HostAction::Reply(Err(e)) => action@ == HostActionView::Reply(Err(e@)),
        },
        known_hosts::hosts_result(Ok(hosts)) == Ok::<Hosts, ReadErrorView>(hosts@),
        known_hosts::hosts_result(Err(read_error)) == Err::<Hosts, ReadErrorView>(read_error@),
{
}

} // verus!
