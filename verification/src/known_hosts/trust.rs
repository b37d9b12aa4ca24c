//! Which key of a host is taken, over plain maps.

use super::file;
use super::file::Hosts;
use crate::keys;
use vstd::prelude::*;

verus! {

/// Why the key of a host is not taken.
pub enum HostErrorView {
    /// Another key is known for the host.
    KeyChanged { host: Seq<char> },
    /// The user does not accept the key.
    Rejected { host: Seq<char>, fingerprint: Seq<char> },
}

/// A host with a key.
pub struct HostKeyView {
    pub host: Seq<char>,
    pub key: Seq<char>,
}

/// What is to be done next.
pub enum HostActionView {
    /// Ask the user whether this is the key of this host.
    AskAcceptKey { host: Seq<char>, key: Seq<char> },
    /// Append the line to the file of known hosts, then answer that the key is taken.
    Append { line: Seq<char> },
    /// Answer whether the key is taken.
    Reply(Result<(), HostErrorView>),
}

/// The known hosts, the host and key that wait to be accepted, and what is to be done next.
pub struct HostStep {
    pub hosts: Hosts,
    pub waiting: Option<HostKeyView>,
    pub action: HostActionView,
}

/// A host shows a key.
pub open spec fn on_host_key(hosts: Hosts, host: Seq<char>, key: Seq<char>) -> HostStep {
    if hosts.contains_key(host) {
        HostStep {
            hosts,
            waiting: None,
            action: HostActionView::Reply(
                if hosts[host].key == key {
                    Ok(())
                } else {
                    Err(HostErrorView::KeyChanged { host })
                },
            ),
        }
    } else {
        HostStep {
            hosts,
            waiting: Some(HostKeyView { host, key }),
            action: HostActionView::AskAcceptKey { host, key },
        }
    }
}

/// The user has accepted the key of a host, or has not.
pub open spec fn on_answer(
    hosts: Hosts,
    host: Seq<char>,
    key: Seq<char>,
    accept: bool,
) -> HostStep {
    if accept {
        HostStep {
            hosts: file::add_host(hosts, host, key),
            waiting: None,
            action: HostActionView::Append { line: file::host_line(host, key) },
        }
    } else {
        HostStep {
            hosts,
            waiting: None,
            action: HostActionView::Reply(
                Err(
                    HostErrorView::Rejected { host, fingerprint: keys::sha256_fingerprint(key) },
                ),
            ),
        }
    }
}

/// The host whose key waits to be accepted is not known.
pub open spec fn coherent(hosts: Hosts, waiting: Option<HostKeyView>) -> bool {
    waiting matches Some(w) ==> !hosts.contains_key(w.host)
}

/// How an error reads.
pub open spec fn host_error_text(error: HostErrorView) -> Seq<char> {
    match error {
        HostErrorView::KeyChanged { host } => "key fingerprint for "@ + host + " has changed"@,
        HostErrorView::Rejected { host, fingerprint } => "rejected host "@ + host
            + " with key fingerprint "@ + fingerprint,
    }
}

} // verus!
