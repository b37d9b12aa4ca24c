use ssh_git_fw::keys::PublicKey;
use ssh_git_fw::known_hosts::{HostAction, HostError, KnownHosts, ReadError, RequestKnownHost};
use ssh_git_fw::ui::messages::ReplyAcceptKey;

const KEY: &str = "ssh-ed25519 AAAAC3NzaC1lZDI1NTE5AAAAILM+rvN+ot98qgEN796jTiQfZfG1KaT0PtFDJ/XFSqti user@example.com";
const OTHER: &str =
    "ssh-ed25519 AAAAC3NzaC1lZDI1NTE5AAAAIAABAgMEBQYHCAkKCwwNDg8QERITFBUWFxgZGhscHR4f";

fn shows(host: &str, key: &str) -> RequestKnownHost {
    RequestKnownHost { host: host.to_string(), key: PublicKey::from_openssh(key).unwrap() }
}

fn read_err(bytes: &[u8]) -> ReadError {
    match KnownHosts::read(bytes) {
        Err(e) => e,
        Ok(_) => panic!("an error was expected"),
    }
}

fn known(text: &str) -> KnownHosts {
    match KnownHosts::new(text.as_bytes()) {
        Ok(hosts) => hosts,
        Err(e) => panic!("{}", e.message()),
    }
}

#[test]
fn an_empty_file_holds_no_host() {
    assert_eq!(known("").len(), 0);
    assert_eq!(known("\n\r\n# a comment\n#\n").len(), 0);
}

#[test]
fn lines_end_in_a_line_feed_or_both() {
    let text = format!("a {}\r\nb {}\n\n# c\nc {}", KEY, OTHER, KEY);
    let hosts = match KnownHosts::read(text.as_bytes()) {
        Ok(hosts) => hosts,
        Err(e) => panic!("{}", e.message()),
    };
    assert_eq!(hosts.len(), 3);
    for (host, key, line_num) in [("a", KEY, 1), ("b", OTHER, 2), ("c", KEY, 3)] {
        let entry = hosts.get(&host.to_string()).unwrap();
        assert_eq!(entry.key.to_openssh(), key);
        assert_eq!(entry.line_num, line_num);
    }
}

#[test]
fn a_later_line_takes_the_place_of_an_earlier_one() {
    let text = format!("a {}\na {}\n", KEY, OTHER);
    let hosts = match KnownHosts::read(text.as_bytes()) {
        Ok(hosts) => hosts,
        Err(e) => panic!("{}", e.message()),
    };
    assert_eq!(hosts.len(), 1);
    let entry = hosts.get(&"a".to_string()).unwrap();
    assert_eq!(entry.key.to_openssh(), OTHER);
    assert_eq!(entry.line_num, 2);
}

#[test]
fn a_line_without_a_space_is_refused_by_its_number() {
    let text = format!("# first\na {}\nb\n", KEY);
    let e = read_err(text.as_bytes());
    assert!(matches!(e, ReadError::MissingSpace { line: 2 }));
    assert_eq!(e.message(), "missing space between host and public key in line 2");
}

#[test]
fn a_line_that_is_no_text_is_refused() {
    let e = read_err(b"a \xff\n");
    assert!(matches!(e, ReadError::NotUtf8));
    assert_eq!(e.message(), "stream did not contain valid UTF-8");
    let e = read_err(b"# \xff\n");
    assert!(matches!(e, ReadError::NotUtf8));
}

#[test]
fn a_line_without_a_key_is_refused() {
    let expected = ssh_key::PublicKey::from_openssh("what").unwrap_err().to_string();
    match read_err(b"a what\n") {
        ReadError::Key(e) => assert_eq!(e, expected),
        _ => panic!("another error was expected"),
    }
}

#[test]
fn the_first_error_counts() {
    let e = read_err(b"a\n\xff\n");
    assert!(matches!(e, ReadError::MissingSpace { line: 1 }));
}

#[test]
fn a_known_host_is_judged_by_its_key() {
    let mut hosts = known(&format!("a {}\n", KEY));
    assert!(matches!(
        hosts.handle_req_known_host(shows("a", KEY)),
        HostAction::Reply(Ok(()))
    ));
    match hosts.handle_req_known_host(shows("a", OTHER)) {
        HostAction::Reply(Err(e)) => {
            assert!(matches!(e, HostError::KeyChanged { .. }));
            assert_eq!(e.message(), "key fingerprint for a has changed");
        }
        _ => panic!("an error was expected"),
    }
    assert!(!hosts.is_waiting());
}

#[test]
fn an_accepted_key_is_written_trusted_and_read_back() {
    let before = format!("a {}\n", KEY);
    let mut hosts = known(&before);
    match hosts.handle_req_known_host(shows("b", OTHER)) {
        HostAction::AskAcceptKey(req) => {
            assert_eq!(req.host, "b");
            assert_eq!(req.key.to_openssh(), OTHER);
        }
        _ => panic!("a question was expected"),
    }
    assert!(hosts.is_waiting());
    assert_eq!(hosts.len(), 1);
    let line = match hosts.key_answered(ReplyAcceptKey { accept: true }) {
        HostAction::Append { line } => line,
        _ => panic!("a line was expected"),
    };
    assert_eq!(line, format!("b {}\n", OTHER));
    assert!(!hosts.is_waiting());
    assert_eq!(hosts.len(), 2);
    assert!(matches!(
        hosts.handle_req_known_host(shows("b", OTHER)),
        HostAction::Reply(Ok(()))
    ));
    assert!(matches!(
        hosts.handle_req_known_host(shows("a", KEY)),
        HostAction::Reply(Ok(()))
    ));
    let read = match KnownHosts::read((before + &line).as_bytes()) {
        Ok(read) => read,
        Err(e) => panic!("{}", e.message()),
    };
    let entry = read.get(&"b".to_string()).unwrap();
    assert_eq!(entry.key.to_openssh(), OTHER);
    assert_eq!(entry.line_num, 2);
}

#[test]
fn a_rejected_key_is_not_kept() {
    let mut hosts = known("");
    hosts.handle_req_known_host(shows("a", KEY));
    match hosts.key_answered(ReplyAcceptKey { accept: false }) {
        HostAction::Reply(Err(e)) => {
            assert!(matches!(e, HostError::Rejected { .. }));
            assert_eq!(
                e.message(),
                "rejected host a with key fingerprint SHA256:UCUiLr7Pjs9wFFJMDByLgc3NrtdU344OgUM45wZPcIQ"
            );
        }
        _ => panic!("an error was expected"),
    }
    assert_eq!(hosts.len(), 0);
    assert!(matches!(
        hosts.handle_req_known_host(shows("a", KEY)),
        HostAction::AskAcceptKey(_)
    ));
}
