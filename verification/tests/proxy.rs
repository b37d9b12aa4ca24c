use ssh_git_fw::proxy::{
    serve_socks5, ProxyAction, ProxyError, ProxyEvent, ProxyRun, SocketAddress, SocksCommand,
    SocksDecision,
};
use ssh_git_fw::target::TargetAddr;

const LOCAL: SocketAddress = SocketAddress::V4 { ip: [127, 0, 0, 1], port: 4000 };
const FIRST: SocketAddress = SocketAddress::V4 { ip: [192, 0, 2, 1], port: 22 };
const SECOND: SocketAddress = SocketAddress::V4 { ip: [192, 0, 2, 2], port: 22 };

fn domain() -> TargetAddr {
    TargetAddr::Domain("git.example.org".to_string(), 22)
}

/// A connection that waits to be told of what came of the last of these events.
fn after(events: Vec<ProxyEvent>) -> ProxyRun {
    let (mut run, _) = ProxyRun::start(&TargetAddr::Ipv4([192, 0, 2, 1], 22));
    for event in events {
        assert!(run.step(event).is_some());
    }
    run
}

fn aborts(run: &mut ProxyRun, event: ProxyEvent) -> String {
    match run.step(event) {
        Some(ProxyAction::Abort(why)) => why,
        _ => panic!("the connection was expected to abort"),
    }
}

fn fails(run: &mut ProxyRun, event: ProxyEvent) -> ProxyError {
    match run.step(event) {
        Some(ProxyAction::Finish(Err(e))) => e,
        _ => panic!("the connection was expected to fail"),
    }
}

#[test]
fn only_connecting_is_supported() {
    assert_eq!(serve_socks5(SocksCommand::TcpConnect), SocksDecision::Proxy);
    assert_eq!(serve_socks5(SocksCommand::TcpBind), SocksDecision::CommandNotSupported);
    assert_eq!(serve_socks5(SocksCommand::UdpAssociate), SocksDecision::CommandNotSupported);
}

#[test]
fn an_address_is_connected_to_at_once() {
    let (_, action) = ProxyRun::start(&TargetAddr::Ipv4([192, 0, 2, 1], 22));
    assert!(matches!(action, ProxyAction::Connect(addr) if addr == FIRST));
    let ip = [0x20, 1, 0xd, 0xb8, 0, 0, 0, 0, 0, 0, 0, 0, 0, 0, 0, 1];
    let (_, action) = ProxyRun::start(&TargetAddr::Ipv6(ip, 22));
    let expected = SocketAddress::V6 { ip, port: 22, flowinfo: 0, scope_id: 0 };
    assert!(matches!(action, ProxyAction::Connect(addr) if addr == expected));
}

#[test]
fn a_connection_runs_through_to_its_end() {
    let (mut run, action) = ProxyRun::start(&domain());
    match action {
        ProxyAction::LookUp { domain, port } => {
            assert_eq!(domain, "git.example.org");
            assert_eq!(port, 22);
        }
        _ => panic!("a lookup was expected"),
    }
    assert!(matches!(
        run.step(ProxyEvent::LookedUp(vec![SECOND, FIRST])),
        Some(ProxyAction::Connect(addr)) if addr == SECOND
    ));
    assert!(matches!(
        run.step(ProxyEvent::Connected(LOCAL)),
        Some(ProxyAction::ReplySuccess(addr)) if addr == LOCAL
    ));
    assert!(matches!(run.step(ProxyEvent::SuccessReplied), Some(ProxyAction::OpenOutbound)));
    assert!(matches!(run.step(ProxyEvent::OutboundOpened), Some(ProxyAction::OpenInbound)));
    assert!(matches!(run.step(ProxyEvent::InboundOpened), Some(ProxyAction::Serve)));
    assert!(matches!(run.step(ProxyEvent::Closed), Some(ProxyAction::Disconnect)));
    assert!(matches!(run.step(ProxyEvent::Disconnected), Some(ProxyAction::Finish(Ok(())))));
    assert!(run.step(ProxyEvent::Closed).is_none());
}

#[test]
fn an_event_that_is_not_waited_for_changes_nothing() {
    let (mut run, _) = ProxyRun::start(&domain());
    assert!(run.step(ProxyEvent::InboundOpened).is_none());
    assert!(run.step(ProxyEvent::Connected(LOCAL)).is_none());
    assert!(matches!(
        run.step(ProxyEvent::LookedUp(vec![FIRST])),
        Some(ProxyAction::Connect(addr)) if addr == FIRST
    ));
}

#[test]
fn a_lookup_can_fail() {
    let (mut run, _) = ProxyRun::start(&domain());
    match fails(&mut run, ProxyEvent::LookUpFailed("no such host".to_string())) {
        ProxyError::DnsResolutionFailed(e) => assert_eq!(e, "no such host"),
        _ => panic!("another error was expected"),
    }
    let (mut run, _) = ProxyRun::start(&domain());
    assert!(matches!(
        fails(&mut run, ProxyEvent::LookedUp(vec![])),
        ProxyError::NoDnsRecords
    ));
}

#[test]
fn the_client_is_told_of_a_target_that_cannot_be_connected_to() {
    let mut run = after(vec![]);
    match run.step(ProxyEvent::ConnectFailed("timed out".to_string())) {
        Some(ProxyAction::ReplyError(e)) => assert_eq!(e, "timed out"),
        _ => panic!("an answer to the client was expected"),
    }
    match fails(&mut run, ProxyEvent::ErrorReplied) {
        ProxyError::ConnectFailed(e) => assert_eq!(e, "timed out"),
        _ => panic!("another error was expected"),
    }
}

#[test]
fn a_client_that_cannot_be_told_is_not_served() {
    let mut run = after(vec![ProxyEvent::Connected(LOCAL)]);
    match fails(&mut run, ProxyEvent::SuccessReplyFailed("gone".to_string())) {
        ProxyError::ReplyFailed(e) => assert_eq!(e, "gone"),
        _ => panic!("another error was expected"),
    }
}

#[test]
fn a_session_that_cannot_be_opened_or_closed_aborts() {
    let mut run = after(vec![ProxyEvent::Connected(LOCAL), ProxyEvent::SuccessReplied]);
    assert_eq!(
        aborts(&mut run, ProxyEvent::OutboundFailed("gone".to_string())),
        "Connection setup failed: gone"
    );
    let mut run = after(vec![
        ProxyEvent::Connected(LOCAL),
        ProxyEvent::SuccessReplied,
        ProxyEvent::OutboundOpened,
    ]);
    assert_eq!(
        aborts(&mut run, ProxyEvent::InboundFailed("gone".to_string())),
        "Connection setup failed: gone"
    );
    let mut run = after(vec![
        ProxyEvent::Connected(LOCAL),
        ProxyEvent::SuccessReplied,
        ProxyEvent::OutboundOpened,
        ProxyEvent::InboundOpened,
    ]);
    assert_eq!(
        aborts(&mut run, ProxyEvent::ClosedWithError("gone".to_string())),
        "Connection closed with error: gone"
    );
    let mut run = after(vec![
        ProxyEvent::Connected(LOCAL),
        ProxyEvent::SuccessReplied,
        ProxyEvent::OutboundOpened,
        ProxyEvent::InboundOpened,
        ProxyEvent::Closed,
    ]);
    assert_eq!(aborts(&mut run, ProxyEvent::DisconnectFailed("gone".to_string())), "gone");
}

#[test]
fn the_client_is_told_once() {
    let (mut run, _) = ProxyRun::start(&domain());
    let events = vec![
        ProxyEvent::LookedUp(vec![FIRST]),
        ProxyEvent::Connected(LOCAL),
        ProxyEvent::SuccessReplied,
        ProxyEvent::ConnectFailed("gone".to_string()),
        ProxyEvent::Connected(LOCAL),
        ProxyEvent::OutboundOpened,
        ProxyEvent::InboundOpened,
        ProxyEvent::Closed,
        ProxyEvent::Disconnected,
        ProxyEvent::ConnectFailed("gone".to_string()),
    ];
    let mut told = 0;
    for event in events {
        if let Some(ProxyAction::ReplySuccess(_) | ProxyAction::ReplyError(_)) = run.step(event) {
            told += 1;
        }
    }
    assert_eq!(told, 1);
}
