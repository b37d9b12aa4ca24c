use ssh_git_fw::keys::PublicKey;
use ssh_git_fw::model::Permission;
use ssh_git_fw::rules::{ClientRules, ExecError, Rules, RulesAction};
use ssh_git_fw::session::{
    AuthDecision, ExecDecision, ExecRequestError, PendingExec, SessionState,
};
use ssh_git_fw::str_map::StrMap;
use ssh_git_fw::target::TargetAddr;
use ssh_git_fw::ui::messages::ReplyPermission;

const KEY: &str = "ssh-ed25519 AAAAC3NzaC1lZDI1NTE5AAAAILM+rvN+ot98qgEN796jTiQfZfG1KaT0PtFDJ/XFSqti user@example.com";
const OTHER: &str =
    "ssh-ed25519 AAAAC3NzaC1lZDI1NTE5AAAAIAABAgMEBQYHCAkKCwwNDg8QERITFBUWFxgZGhscHR4f";

fn session() -> SessionState {
    SessionState::new(TargetAddr::Domain("git.example.org".to_string(), 22))
}

fn key(text: &str) -> PublicKey {
    PublicKey::from_openssh(text).unwrap()
}

#[test]
fn channels_lead_to_each_other() {
    let mut s = session();
    assert_eq!(s.outbound_chan(7), None);
    assert_eq!(s.inbound_chan_id(9), None);
    s.set_chan_map(7, 9);
    s.set_chan_map(8, 7);
    assert_eq!(s.outbound_chan(7), Some(9));
    assert_eq!(s.outbound_chan(8), Some(7));
    assert_eq!(s.inbound_chan_id(9), Some(7));
    assert_eq!(s.inbound_chan_id(7), Some(8));
    assert_eq!(s.inbound_chan_id(8), None);
}

#[test]
fn a_channel_that_is_joined_again_leads_to_the_new_one() {
    let mut s = session();
    s.set_chan_map(7, 9);
    s.set_chan_map(7, 10);
    assert_eq!(s.outbound_chan(7), Some(10));
    assert_eq!(s.inbound_chan_id(9), Some(7));
    assert_eq!(s.inbound_chan_id(10), Some(7));
}

#[test]
fn requests_carry_the_client_that_was_authenticated_first() {
    let mut s = session();
    assert_eq!(s.inbound_client_pk_openssh(), None);
    assert_eq!(
        s.auth_publickey("git", key(KEY), false),
        AuthDecision::AuthenticationFailed
    );
    assert_eq!(s.inbound_client_pk_openssh(), None);
    assert_eq!(s.auth_publickey("git", key(KEY), true), AuthDecision::Accept);
    assert_eq!(
        s.auth_publickey("root", key(OTHER), true),
        AuthDecision::AlreadyAuthenticated
    );
    assert_eq!(
        s.auth_publickey("root", key(OTHER), false),
        AuthDecision::AuthenticationFailed
    );
    assert_eq!(s.inbound_client_pk_openssh(), Some(KEY.to_string()));
    let (req, _) =
        s.exec_request(7, b"git-upload-pack '/a.git'").unwrap_or_else(|e| panic!("{:?}", e));
    assert_eq!(req.pk_openssh, KEY);
    assert_eq!(req.server_addr, "git.example.org:22");
    assert_eq!(req.user, "git");
    assert_eq!(req.data, "git-upload-pack '/a.git'");
}

#[test]
fn no_request_without_a_client_or_a_text() {
    let mut s = session();
    assert_eq!(s.exec_request(7, b"ls").err(), Some(ExecRequestError::NotAuthenticated));
    assert_eq!(s.exec_request(7, b"\xff").err(), Some(ExecRequestError::NotAuthenticated));
    s.auth_publickey("git", key(KEY), true);
    assert_eq!(s.exec_request(7, b"\xff").err(), Some(ExecRequestError::NotUtf8));
    let (req, _) = s.exec_request(7, "é".as_bytes()).unwrap_or_else(|e| panic!("{:?}", e));
    assert_eq!(req.data, "é");
}

/// A command that came in on a channel and waits for its verdict.
fn pending(s: &SessionState, channel: u32, command: &str) -> PendingExec {
    match s.exec_request(channel, command.as_bytes()) {
        Ok((req, pending)) => {
            assert_eq!(req.data, command);
            pending
        }
        Err(e) => panic!("{:?}", e),
    }
}

#[test]
fn only_what_is_approved_is_run() {
    let mut s = session();
    s.auth_publickey("git", key(KEY), true);
    let unknown = pending(&s, 7, "ls");
    assert_eq!(s.exec_verdict(unknown, &Ok(())), ExecDecision::UnknownChannel);
    s.set_chan_map(7, 9);
    s.set_chan_map(8, 10);
    let first = pending(&s, 7, "git-upload-pack '/a.git'");
    let second = pending(&s, 8, "git-upload-pack '/é.git'");
    assert_eq!(
        s.exec_verdict(second, &Ok(())),
        ExecDecision::Forward { channel: 10, command: "git-upload-pack '/é.git'".to_string() }
    );
    assert_eq!(
        s.exec_verdict(first, &Ok(())),
        ExecDecision::Forward { channel: 9, command: "git-upload-pack '/a.git'".to_string() }
    );
    let denied = pending(&s, 7, "ls");
    assert_eq!(
        s.exec_verdict(denied, &Err(ExecError::NoClientName)),
        ExecDecision::Denied
    );
}

#[test]
fn a_command_runs_once_the_rules_approve_it() {
    let mut s = session();
    s.auth_publickey("git", key(KEY), true);
    s.set_chan_map(7, 9);
    let mut clients = StrMap::new();
    clients.insert(KEY.to_string(), ClientRules::new("laptop".to_string()));
    let mut rules = Rules::new(clients);
    let command = "git-receive-pack '/a.git'";
    for (now, future) in [(false, Permission::Ask), (true, Permission::Yes)] {
        let (req, waiting) =
            s.exec_request(7, command.as_bytes()).unwrap_or_else(|e| panic!("{:?}", e));
        match rules.handle_req_exec(req) {
            RulesAction::AskPermission(question) => {
                assert_eq!(question.action, "write to /a.git")
            }
            _ => panic!("a question was expected"),
        }
        let verdict = match rules.permission_answered(ReplyPermission { now, future }) {
            RulesAction::Reply { result, .. } => result,
            _ => panic!("a verdict was expected"),
        };
        let expected = if now {
            ExecDecision::Forward { channel: 9, command: command.to_string() }
        } else {
            ExecDecision::Denied
        };
        assert_eq!(s.exec_verdict(waiting, &verdict), expected);
    }
}

#[test]
fn a_target_reads_as_its_address_and_port() {
    assert_eq!(TargetAddr::Ipv4([192, 0, 2, 17], 22).text(), "192.0.2.17:22");
    assert_eq!(TargetAddr::Ipv4([0, 0, 0, 0], 0).text(), "0.0.0.0:0");
    assert_eq!(
        TargetAddr::Ipv6([0x20, 1, 0xd, 0xb8, 0, 0, 0, 0, 0, 0, 0, 0, 0, 0, 0, 1], 2222).text(),
        "[2001:db8::1]:2222"
    );
    assert_eq!(
        TargetAddr::Domain("git.example.org".to_string(), 65535).text(),
        "git.example.org:65535"
    );
}
