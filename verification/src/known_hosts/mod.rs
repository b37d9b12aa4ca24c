//! The hosts whose keys the user has accepted.

use crate::keys;
use crate::keys::PublicKey;
use crate::str_map::StrMap;
use crate::text;
use crate::text::{decimal_text, split_once, starts_with, utf8_text};
use crate::ui::messages::{ReplyAcceptKey, RequestAcceptKey};
use vstd::prelude::*;
use vstd::slice::*;
use vstd::string::*;

pub mod file;
pub mod laws;
pub mod trust;

verus! {

/// A known host: its key, and the number of hosts that were known when it was added, plus one.
#[derive(Debug)]
pub struct Entry {
    pub line_num: usize,
    pub key: PublicKey,
}

impl View for Entry {
    type V = file::EntryView;

    open spec fn view(&self) -> file::EntryView {
        file::EntryView { line_num: self.line_num as nat, key: self.key@ }
    }
}

/// Why a file cannot be read.
#[derive(Debug)]
pub enum ReadError {
    NotUtf8,
    MissingSpace { line: usize },
    Key(String),
}

impl View for ReadError {
    type V = file::ReadErrorView;

    open spec fn view(&self) -> file::ReadErrorView {
        match *self {
            ReadError::NotUtf8 => file::ReadErrorView::NotUtf8,
            ReadError::MissingSpace { line } => file::ReadErrorView::MissingSpace {
                line: line as nat,
            },
            ReadError::Key(e) => file::ReadErrorView::Key(e@),
        }
    }
}

impl ReadError {
    /// How the error reads.
    pub fn message(&self) -> (text: String)
        ensures
            text@ == file::read_error_text(self@),
            text@ == match *self {
                ReadError::NotUtf8 => "stream did not contain valid UTF-8"@,
                ReadError::MissingSpace { line } => {
                    "missing space between host and public key in line "@ + text::decimal(
                        line as nat,
                    )
                },
                ReadError::Key(e) => e@,
            },
    {
        match self {
            ReadError::NotUtf8 => "stream did not contain valid UTF-8".to_owned(),
            ReadError::MissingSpace { line } => {
                let mut text: String = "missing space between host and public key in line "
                    .to_owned();
                text.append(&decimal_text(*line));
                text
            },
            ReadError::Key(e) => e.clone(),
        }
    }
}

/// Why the key of a host is not taken.
#[derive(Debug)]
pub enum HostError {
    KeyChanged { host: String },
    Rejected { host: String, fingerprint: String },
}

impl View for HostError {
    type V = trust::HostErrorView;

    open spec fn view(&self) -> trust::HostErrorView {
        match *self {
            HostError::KeyChanged { host } => trust::HostErrorView::KeyChanged { host: host@ },
            HostError::Rejected { host, fingerprint } => trust::HostErrorView::Rejected {
                host: host@,
                fingerprint: fingerprint@,
            },
        }
    }
}

impl HostError {
    /// How the error reads.
    pub fn message(&self) -> (text: String)
        ensures
            text@ == trust::host_error_text(self@),
            text@ == match *self {
                HostError::KeyChanged { host } => "key fingerprint for "@ + host@
                    + " has changed"@,
                HostError::Rejected { host, fingerprint } => "rejected host "@ + host@
                    + " with key fingerprint "@ + fingerprint@,
            },
    {
        match self {
            HostError::KeyChanged { host } => {
                let mut text: String = "key fingerprint for ".to_owned();
                text.append(host);
                text.append(" has changed");
                text
            },
            HostError::Rejected { host, fingerprint } => {
                let mut text: String = "rejected host ".to_owned();
                text.append(host);
                text.append(" with key fingerprint ");
                text.append(fingerprint);
                text
            },
        }
    }
}

/// What is to be done next.
pub enum HostAction {
    /// Ask the user whether this is the key of this host.
    AskAcceptKey(RequestAcceptKey),
    /// Append the line to the file of known hosts, then answer that the key is taken.
    Append { line: String },
    /// Answer whether the key is taken.
    Reply(Result<(), HostError>),
}

impl View for HostAction {
    type V = trust::HostActionView;

    open spec fn view(&self) -> trust::HostActionView {
        match *self {
            HostAction::AskAcceptKey(req) => trust::HostActionView::AskAcceptKey {
                host: req.host@,
                key: req.key@,
            },
            HostAction::Append { line } => trust::HostActionView::Append { line: line@ },
            HostAction::Reply(Ok(())) => trust::HostActionView::Reply(Ok(())),
            HostAction::Reply(Err(e)) => trust::HostActionView::Reply(Err(e@)),
        }
    }
}

/// The hosts that were read, or why they were not.
pub open spec fn hosts_result(
    result: Result<StrMap<Entry>, ReadError>,
) -> Result<file::Hosts, file::ReadErrorView> {
    match result {
        Ok(hosts) => Ok(hosts@),
        Err(e) => Err(e@),
    }
}

/// Reads one line.
fn read_line(hosts: &mut StrMap<Entry>, line: &[u8]) -> (result: Result<(), ReadError>)
    requires
        old(hosts)@.dom().len() < usize::MAX,
    ensures
        match result {
            Ok(()) => file::read_line(old(hosts)@, line@) == Ok::<
                file::Hosts,
                file::ReadErrorView,
            >(final(hosts)@),
            Err(e) => file::read_line(old(hosts)@, line@) == Err::<
                file::Hosts,
                file::ReadErrorView,
            >(e@),
        },
        final(hosts)@.dom().len() <= old(hosts)@.dom().len() + (if line@.len() == 0 {
            0int
        } else {
            1int
        }),
{
    let text: &str = match utf8_text(line) {
        Some(text) => text,
        None => {
            return Err(ReadError::NotUtf8);
        },
    };
    proof {
        reveal_strlit("#");
    }
    if text.is_empty() || starts_with(text, "#") {
        proof {
            if text@.len() > 0 {
                assert("#"@.is_prefix_of(text@));
                assert(text@[0] == text@.subrange(0, 1)[0]);
            }
        }
        return Ok(());
    }
    proof {
        if text@[0] == '#' {
            assert("#"@ =~= text@.subrange(0, 1));
        }
        text@.index_of_first_ensures(' ');
    }
    let line_num: usize = hosts.len() + 1;
    match split_once(text, ' ') {
        None => Err(ReadError::MissingSpace { line: line_num }),
        Some((host, key_text)) => {
            proof {
                file::lemma_first_space(text@, host@, key_text@);
            }
            match PublicKey::from_openssh(key_text) {
                Err(e) => Err(ReadError::Key(e)),
                Ok(key) => {
                    hosts.insert(host.to_owned(), Entry { line_num, key });
                    Ok(())
                },
            }
        },
    }
}

/// The position of the first line feed at or behind `start`, or the length where there is none.
fn find_line_end(bytes: &[u8], start: usize) -> (end: usize)
    requires
        start <= bytes@.len(),
    ensures
        start <= end <= bytes@.len(),
        end - start == file::line_end(bytes@.skip(start as int)),
{
    let mut end: usize = start;
    while end < bytes.len() && bytes[end] != 10
        invariant
            start <= end <= bytes@.len(),
            forall|j: int| start <= j < end ==> bytes@[j] != 10,
        decreases bytes@.len() - end,
    {
        end += 1;
    }
    proof {
        let rest = bytes@.skip(start as int);
        assert forall|j: int| 0 <= j < end - start implies rest[j] != 10 by {
            assert(rest[j] == bytes@[start + j]);
        }
        file::lemma_line_end_is(rest, end - start);
    }
    end
}

/// The known hosts, and the host whose key waits to be accepted.
pub struct KnownHosts {
    hosts: StrMap<Entry>,
    waiting: Option<RequestKnownHost>,
}

/// A host has shown this key.
pub struct RequestKnownHost {
    pub host: String,
    pub key: PublicKey,
}

impl KnownHosts {
    /// Reads the hosts that a file holds.
    pub fn read(bytes: &[u8]) -> (result: Result<StrMap<Entry>, ReadError>)
        ensures
            hosts_result(result) == file::read_file(bytes@),
    {
        let mut hosts: StrMap<Entry> = StrMap::new();
        let mut pos: usize = 0;
        assert(bytes@.skip(0) =~= bytes@);
        while pos < bytes.len()
            invariant
                pos <= bytes@.len(),
                hosts@.dom().len() <= pos,
                file::read_file(bytes@) == file::read_lines(
                    hosts@,
                    file::file_lines(bytes@.skip(pos as int)),
                ),
            decreases bytes@.len() - pos,
        {
            let ghost rest = bytes@.skip(pos as int);
            let ghost lines = file::file_lines(rest);
            let end: usize = find_line_end(bytes, pos);
            proof {
                file::lemma_line_end(rest);
                assert(bytes@.subrange(pos as int, end as int) =~= rest.take(end - pos));
            }
            let mut stop: usize = end;
            let mut next: usize = end;
            if end < bytes.len() {
                next = end + 1;
                if pos < end && bytes[end - 1] == 13 {
                    stop = end - 1;
                }
            }
            let line: &[u8] = slice_subrange(bytes, pos, stop);
            proof {
                if end < bytes@.len() {
                    assert(line@ =~= file::strip_cr(rest.take(end - pos)));
                    assert(rest.skip(end - pos + 1) =~= bytes@.skip(next as int));
                } else {
                    assert(line@ =~= rest);
                    assert(bytes@.skip(next as int) =~= Seq::<u8>::empty());
                }
                assert(lines[0] == line@);
                assert(lines.drop_first() =~= file::file_lines(bytes@.skip(next as int)));
            }
            match read_line(&mut hosts, line) {
                Ok(()) => {},
                Err(e) => {
                    return Err(e);
                },
            }
            pos = next;
        }
        proof {
            assert(bytes@.skip(pos as int) =~= Seq::<u8>::empty());
        }
        Ok(hosts)
    }

    /// The host whose key waits to be accepted is not known.
    #[verifier::type_invariant]
    spec fn inv(self) -> bool {
        trust::coherent(self.hosts(), self.waiting())
    }

    /// The known hosts.
    pub closed spec fn hosts(self) -> file::Hosts {
        self.hosts@
    }

    /// The host and key that wait to be accepted.
    pub closed spec fn waiting(self) -> Option<trust::HostKeyView> {
        match self.waiting {
            Some(req) => Some(trust::HostKeyView { host: req.host@, key: req.key@ }),
            None => None,
        }
    }

    /// The hosts that a file holds, with nothing waiting.
    pub fn new(bytes: &[u8]) -> (result: Result<KnownHosts, ReadError>)
        ensures
            match result {
                Ok(known) => {
                    &&& file::read_file(bytes@) == Ok::<file::Hosts, file::ReadErrorView>(
                        known.hosts(),
                    )
                    &&& known.waiting() is None
                },
                Err(e) => file::read_file(bytes@) == Err::<
                    file::Hosts,
                    file::ReadErrorView,
                >(e@),
            },
    {
        match KnownHosts::read(bytes) {
            Ok(hosts) => Ok(KnownHosts { hosts, waiting: None }),
            Err(e) => Err(e),
        }
    }

    /// The number of known hosts.
    pub fn len(&self) -> (n: usize)
        ensures
            n == self.hosts().dom().len(),
    {
        self.hosts.len()
    }

    /// Whether a key waits to be accepted.
    pub fn is_waiting(&self) -> (waiting: bool)
        ensures
            waiting == (self.waiting() is Some),
    {
        self.waiting.is_some()
    }

    /// Adds a host, and gives the line to be written for it.
    fn append(&mut self, host: String, key: PublicKey) -> (line: String)
        requires
            old(self).hosts().dom().len() < usize::MAX,
            old(self).waiting() is None,
        ensures
            final(self).hosts() == file::add_host(old(self).hosts(), host@, key@),
            final(self).waiting() is None,
            line@ == file::host_line(host@, key@),
    {
        let line_num: usize = self.hosts.len() + 1;
        let mut line: String = host.clone();
        line.append(" ");
        line.append(&key.to_openssh());
        line.append("\n");
        let mut hosts: StrMap<Entry> = StrMap::new();
        std::mem::swap(&mut hosts, &mut self.hosts);
        hosts.insert(host, Entry { line_num, key });
        self.hosts = hosts;
        line
    }

    /// A host shows a key.
    pub fn handle_req_known_host(&mut self, req: RequestKnownHost) -> (action: HostAction)
        ensures
            (trust::HostStep {
                hosts: final(self).hosts(),
                waiting: final(self).waiting(),
                action: action@,
            }) == trust::on_host_key(old(self).hosts(), req.host@, req.key@),
            final(self).hosts() == old(self).hosts(),
            match action {
                HostAction::AskAcceptKey(question) => {
                    &&& !old(self).hosts().contains_key(req.host@)
                    &&& question.host@ == req.host@
                    &&& question.key@ == req.key@
                    &&& final(self).waiting() == Some(
                        trust::HostKeyView { host: req.host@, key: req.key@ },
                    )
                },
                HostAction::Append { .. } => false,
                HostAction::Reply(Ok(())) => {
                    &&& old(self).hosts().contains_key(req.host@)
                    &&& old(self).hosts()[req.host@].key == req.key@
                    &&& final(self).waiting() is None
                },
                HostAction::Reply(Err(HostError::KeyChanged { host })) => {
                    &&& old(self).hosts().contains_key(req.host@)
                    &&& old(self).hosts()[req.host@].key != req.key@
                    &&& host@ == req.host@
                    &&& final(self).waiting() is None
                },
                HostAction::Reply(Err(_)) => false,
            },
    {
        self.waiting = None;
        match self.hosts.get(&req.host) {
            Some(entry) => {
                if entry.key.same(&req.key) {
                    HostAction::Reply(Ok(()))
                } else {
                    HostAction::Reply(Err(HostError::KeyChanged { host: req.host }))
                }
            },
            None => {
                let question = RequestAcceptKey { host: req.host.clone(), key: req.key.copy() };
                self.waiting = Some(req);
                HostAction::AskAcceptKey(question)
            },
        }
    }

    /// The user has accepted the key that waits, or has not.
    pub fn key_answered(&mut self, reply: ReplyAcceptKey) -> (action: HostAction)
        requires
            old(self).waiting() is Some,
            old(self).hosts().dom().len() < usize::MAX,
        ensures
            (trust::HostStep {
                hosts: final(self).hosts(),
                waiting: final(self).waiting(),
                action: action@,
            }) == trust::on_answer(
                old(self).hosts(),
                old(self).waiting()->0.host,
                old(self).waiting()->0.key,
                reply.accept,
            ),
            final(self).waiting() is None,
            match action {
                HostAction::Append { line } => {
                    let host = old(self).waiting()->0.host;
                    let key = old(self).waiting()->0.key;
                    &&& reply.accept
                    &&& line@ == host + " "@ + key + "\n"@
                    &&& final(self).hosts() == old(self).hosts().insert(
                        host,
                        file::EntryView { line_num: old(self).hosts().dom().len() + 1, key },
                    )
                },
                HostAction::Reply(Err(HostError::Rejected { host, fingerprint })) => {
                    &&& !reply.accept
                    &&& host@ == old(self).waiting()->0.host
                    &&& fingerprint@ == keys::sha256_fingerprint(old(self).waiting()->0.key)
                    &&& final(self).hosts() == old(self).hosts()
                },
                _ => false,
            },
    {
        let mut waiting: Option<RequestKnownHost> = None;
        std::mem::swap(&mut waiting, &mut self.waiting);
        let req: RequestKnownHost = waiting.unwrap();
        if reply.accept {
            let line: String = self.append(req.host, req.key);
            HostAction::Append { line }
        } else {
            let fingerprint: String = req.key.fingerprint();
            HostAction::Reply(Err(HostError::Rejected { host: req.host, fingerprint }))
        }
    }
}

} // verus!
