//! The steps of a proxied connection.
//!
//! A connection begins with a command of the SOCKS protocol. To connect, the proxy looks up the
//! target, connects to it, tells the client, opens a session with the server and one with the
//! client, and takes leave of the server when the client is gone. Whoever drives the connection
//! performs each action and hands in what came of it.

use crate::target::TargetAddr;
use vstd::prelude::*;
use vstd::string::*;

verus! {

/// A command of the SOCKS protocol.
#[derive(Clone, Copy, Debug, PartialEq, Eq, Structural)]
pub enum SocksCommand {
    TcpConnect,
    TcpBind,
    UdpAssociate,
}

/// What is done on a command of the SOCKS protocol.
#[derive(Clone, Copy, Debug, PartialEq, Eq, Structural)]
pub enum SocksDecision {
    /// Proxy the connection.
    Proxy,
    /// Tell the client that the command is not supported, and fail with that.
    CommandNotSupported,
}

/// Only connecting is supported.
pub fn serve_socks5(command: SocksCommand) -> (decision: SocksDecision)
    ensures
        decision == if command == SocksCommand::TcpConnect {
            SocksDecision::Proxy
        } else {
            SocksDecision::CommandNotSupported
        },
{
    match command {
        SocksCommand::TcpConnect => SocksDecision::Proxy,
        _ => SocksDecision::CommandNotSupported,
    }
}

/// An address that can be connected to.
#[derive(Clone, Copy, Debug, PartialEq, Eq)]
pub enum SocketAddress {
    V4 { ip: [u8; 4], port: u16 },
    V6 { ip: [u8; 16], port: u16, flowinfo: u32, scope_id: u32 },
}

/// Why a connection failed.
#[derive(Debug)]
pub enum ProxyError {
    /// The target's domain could not be looked up; with how that error reads.
    DnsResolutionFailed(String),
    /// No address is known for the target's domain.
    NoDnsRecords,
    /// The target could not be connected to; with how that error reads.
    ConnectFailed(String),
    /// The client could not be told of the connection; with how that error reads.
    ReplyFailed(String),
}

/// Why a connection failed, over plain sequences.
pub enum ProxyErrorView {
    DnsResolutionFailed(Seq<char>),
    NoDnsRecords,
    ConnectFailed(Seq<char>),
    ReplyFailed(Seq<char>),
}

impl View for ProxyError {
    type V = ProxyErrorView;

    open spec fn view(&self) -> ProxyErrorView {
        match *self {
            ProxyError::DnsResolutionFailed(e) => ProxyErrorView::DnsResolutionFailed(e@),
            ProxyError::NoDnsRecords => ProxyErrorView::NoDnsRecords,
            ProxyError::ConnectFailed(e) => ProxyErrorView::ConnectFailed(e@),
            ProxyError::ReplyFailed(e) => ProxyErrorView::ReplyFailed(e@),
        }
    }
}

/// What the connection waits for.
#[derive(Debug)]
pub enum ProxyState {
    LookingUp,
    Connecting,
    /// The client is being told of this error.
    ReplyingError(String),
    ReplyingSuccess,
    OpeningOutbound,
    OpeningInbound,
    Serving,
    Disconnecting,
    Ended,
}

/// What the connection waits for, over plain sequences.
pub enum ProxyStateView {
    LookingUp,
    Connecting,
    ReplyingError(Seq<char>),
    ReplyingSuccess,
    OpeningOutbound,
    OpeningInbound,
    Serving,
    Disconnecting,
    Ended,
}

impl View for ProxyState {
    type V = ProxyStateView;

    open spec fn view(&self) -> ProxyStateView {
        match *self {
            ProxyState::LookingUp => ProxyStateView::LookingUp,
            ProxyState::Connecting => ProxyStateView::Connecting,
            ProxyState::ReplyingError(e) => ProxyStateView::ReplyingError(e@),
            ProxyState::ReplyingSuccess => ProxyStateView::ReplyingSuccess,
            ProxyState::OpeningOutbound => ProxyStateView::OpeningOutbound,
            ProxyState::OpeningInbound => ProxyStateView::OpeningInbound,
            ProxyState::Serving => ProxyStateView::Serving,
            ProxyState::Disconnecting => ProxyStateView::Disconnecting,
            ProxyState::Ended => ProxyStateView::Ended,
        }
    }
}

/// What came of an action.
pub enum ProxyEvent {
    LookedUp(Vec<SocketAddress>),
    LookUpFailed(String),
    /// Connected, from this local address.
    Connected(SocketAddress),
    ConnectFailed(String),
    /// The client was told of the error, or could not be told.
    ErrorReplied,
    SuccessReplied,
    SuccessReplyFailed(String),
    OutboundOpened,
    OutboundFailed(String),
    InboundOpened,
    InboundFailed(String),
    Closed,
    ClosedWithError(String),
    Disconnected,
    DisconnectFailed(String),
}

/// What came of an action, over plain sequences.
pub enum ProxyEventView {
    LookedUp(Seq<SocketAddress>),
    LookUpFailed(Seq<char>),
    Connected(SocketAddress),
    ConnectFailed(Seq<char>),
    ErrorReplied,
    SuccessReplied,
    SuccessReplyFailed(Seq<char>),
    OutboundOpened,
    OutboundFailed(Seq<char>),
    InboundOpened,
    InboundFailed(Seq<char>),
    Closed,
    ClosedWithError(Seq<char>),
    Disconnected,
    DisconnectFailed(Seq<char>),
}

impl View for ProxyEvent {
    type V = ProxyEventView;

    open spec fn view(&self) -> ProxyEventView {
        match *self {
            ProxyEvent::LookedUp(addrs) => ProxyEventView::LookedUp(addrs@),
            ProxyEvent::LookUpFailed(e) => ProxyEventView::LookUpFailed(e@),
            ProxyEvent::Connected(local) => ProxyEventView::Connected(local),
            ProxyEvent::ConnectFailed(e) => ProxyEventView::ConnectFailed(e@),
            ProxyEvent::ErrorReplied => ProxyEventView::ErrorReplied,
            ProxyEvent::SuccessReplied => ProxyEventView::SuccessReplied,
            ProxyEvent::SuccessReplyFailed(e) => ProxyEventView::SuccessReplyFailed(e@),
            ProxyEvent::OutboundOpened => ProxyEventView::OutboundOpened,
            ProxyEvent::OutboundFailed(e) => ProxyEventView::OutboundFailed(e@),
            ProxyEvent::InboundOpened => ProxyEventView::InboundOpened,
            ProxyEvent::InboundFailed(e) => ProxyEventView::InboundFailed(e@),
            ProxyEvent::Closed => ProxyEventView::Closed,
            ProxyEvent::ClosedWithError(e) => ProxyEventView::ClosedWithError(e@),
            ProxyEvent::Disconnected => ProxyEventView::Disconnected,
            ProxyEvent::DisconnectFailed(e) => ProxyEventView::DisconnectFailed(e@),
        }
    }
}

/// What is to be done next.
#[derive(Debug)]
pub enum ProxyAction {
    /// Look up the addresses of a domain.
    LookUp { domain: String, port: u16 },
    Connect(SocketAddress),
    /// Tell the client that the target could not be connected to, for this reason.
    ReplyError(String),
    /// Tell the client that it is connected, and from which address.
    ReplySuccess(SocketAddress),
    /// Open the session with the server.
    OpenOutbound,
    /// Open the session with the client.
    OpenInbound,
    /// Serve the client until its session is over.
    Serve,
    /// Take leave of the server.
    Disconnect,
    /// The connection is over.
    Finish(Result<(), ProxyError>),
    /// The connection cannot go on, for this reason.
    Abort(String),
}

/// What is to be done next, over plain sequences.
pub enum ProxyActionView {
    LookUp { domain: Seq<char>, port: u16 },
    Connect(SocketAddress),
    ReplyError(Seq<char>),
    ReplySuccess(SocketAddress),
    OpenOutbound,
    OpenInbound,
    Serve,
    Disconnect,
    Finish(Result<(), ProxyErrorView>),
    Abort(Seq<char>),
}

impl View for ProxyAction {
    type V = ProxyActionView;

    open spec fn view(&self) -> ProxyActionView {
        match *self {
            ProxyAction::LookUp { domain, port } => ProxyActionView::LookUp {
                domain: domain@,
                port,
            },
            ProxyAction::Connect(addr) => ProxyActionView::Connect(addr),
            ProxyAction::ReplyError(e) => ProxyActionView::ReplyError(e@),
            ProxyAction::ReplySuccess(addr) => ProxyActionView::ReplySuccess(addr),
            ProxyAction::OpenOutbound => ProxyActionView::OpenOutbound,
            ProxyAction::OpenInbound => ProxyActionView::OpenInbound,
            ProxyAction::Serve => ProxyActionView::Serve,
            ProxyAction::Disconnect => ProxyActionView::Disconnect,
            ProxyAction::Finish(Ok(())) => ProxyActionView::Finish(Ok(())),
            ProxyAction::Finish(Err(e)) => ProxyActionView::Finish(Err(e@)),
            ProxyAction::Abort(why) => ProxyActionView::Abort(why@),
        }
    }
}

/// The address that a target gives without being looked up.
pub open spec fn target_address(target: TargetAddr) -> Option<SocketAddress> {
    match target {
        TargetAddr::Ipv4(ip, port) => Some(SocketAddress::V4 { ip, port }),
        TargetAddr::Ipv6(ip, port) => Some(
            SocketAddress::V6 { ip, port, flowinfo: 0, scope_id: 0 },
        ),
        TargetAddr::Domain(_, _) => None,
    }
}

/// What a connection does first.
pub open spec fn first_step(target: TargetAddr) -> (ProxyStateView, ProxyActionView) {
    match target {
        TargetAddr::Domain(domain, port) => (
            ProxyStateView::LookingUp,
            ProxyActionView::LookUp { domain: domain@, port },
        ),
        _ => (ProxyStateView::Connecting, ProxyActionView::Connect(target_address(target)->0)),
    }
}

/// What a connection does next; nothing where the event is not one that it waits for.
pub open spec fn next_step(
    state: ProxyStateView,
    event: ProxyEventView,
) -> Option<(ProxyStateView, ProxyActionView)> {
    match (state, event) {
        (ProxyStateView::LookingUp, ProxyEventView::LookedUp(addrs)) => Some(
            if addrs.len() == 0 {
                (
                    ProxyStateView::Ended,
                    ProxyActionView::Finish(Err(ProxyErrorView::NoDnsRecords)),
                )
            } else {
                (ProxyStateView::Connecting, ProxyActionView::Connect(addrs[0]))
            },
        ),
        (ProxyStateView::LookingUp, ProxyEventView::LookUpFailed(e)) => Some(
            (
                ProxyStateView::Ended,
                ProxyActionView::Finish(Err(ProxyErrorView::DnsResolutionFailed(e))),
            ),
        ),
        (ProxyStateView::Connecting, ProxyEventView::Connected(local)) => Some(
            (ProxyStateView::ReplyingSuccess, ProxyActionView::ReplySuccess(local)),
        ),
        (ProxyStateView::Connecting, ProxyEventView::ConnectFailed(e)) => Some(
            (ProxyStateView::ReplyingError(e), ProxyActionView::ReplyError(e)),
        ),
        (ProxyStateView::ReplyingError(e), ProxyEventView::ErrorReplied) => Some(
            (ProxyStateView::Ended, ProxyActionView::Finish(Err(ProxyErrorView::ConnectFailed(e)))),
        ),
        (ProxyStateView::ReplyingSuccess, ProxyEventView::SuccessReplied) => Some(
            (ProxyStateView::OpeningOutbound, ProxyActionView::OpenOutbound),
        ),
        (ProxyStateView::ReplyingSuccess, ProxyEventView::SuccessReplyFailed(e)) => Some(
            (ProxyStateView::Ended, ProxyActionView::Finish(Err(ProxyErrorView::ReplyFailed(e)))),
        ),
        (ProxyStateView::OpeningOutbound, ProxyEventView::OutboundOpened) => Some(
            (ProxyStateView::OpeningInbound, ProxyActionView::OpenInbound),
        ),
        (ProxyStateView::OpeningOutbound, ProxyEventView::OutboundFailed(e)) => Some(
            (ProxyStateView::Ended, ProxyActionView::Abort("Connection setup failed: "@ + e)),
        ),
        (ProxyStateView::OpeningInbound, ProxyEventView::InboundOpened) => Some(
            (ProxyStateView::Serving, ProxyActionView::Serve),
        ),
        (ProxyStateView::OpeningInbound, ProxyEventView::InboundFailed(e)) => Some(
            (ProxyStateView::Ended, ProxyActionView::Abort("Connection setup failed: "@ + e)),
        ),
        (ProxyStateView::Serving, ProxyEventView::Closed) => Some(
            (ProxyStateView::Disconnecting, ProxyActionView::Disconnect),
        ),
        (ProxyStateView::Serving, ProxyEventView::ClosedWithError(e)) => Some(
            (ProxyStateView::Ended, ProxyActionView::Abort("Connection closed with error: "@ + e)),
        ),
        (ProxyStateView::Disconnecting, ProxyEventView::Disconnected) => Some(
            (ProxyStateView::Ended, ProxyActionView::Finish(Ok(()))),
        ),
        (ProxyStateView::Disconnecting, ProxyEventView::DisconnectFailed(e)) => Some(
            (ProxyStateView::Ended, ProxyActionView::Abort(e)),
        ),
        _ => None,
    }
}

/// One proxied connection.
pub struct ProxyRun {
    state: ProxyState,
}

impl ProxyRun {
    /// What the connection waits for.
    pub closed spec fn state(self) -> ProxyStateView {
        self.state@
    }

    /// A connection to a target, and what it does first.
    pub fn start(target: &TargetAddr) -> (started: (ProxyRun, ProxyAction))
        ensures
            (started.0.state(), started.1@) == first_step(*target),
            match *target {
                TargetAddr::Ipv4(ip, port) => {
                    &&& started.0.state() is Connecting
                    &&& started.1 == ProxyAction::Connect(SocketAddress::V4 { ip, port })
                },
                TargetAddr::Ipv6(ip, port) => {
                    &&& started.0.state() is Connecting
                    &&& started.1 == ProxyAction::Connect(
                        SocketAddress::V6 { ip, port, flowinfo: 0, scope_id: 0 },
                    )
                },
                TargetAddr::Domain(domain, port) => {
                    &&& started.0.state() is LookingUp
                    &&& started.1 matches ProxyAction::LookUp { domain: asked, port: asked_port }
                    &&& asked@ == domain@
                    &&& asked_port == port
                },
            },
    {
        match target {
            TargetAddr::Ipv4(ip, port) => (
                ProxyRun { state: ProxyState::Connecting },
                ProxyAction::Connect(SocketAddress::V4 { ip: *ip, port: *port }),
            ),
            TargetAddr::Ipv6(ip, port) => (
                ProxyRun { state: ProxyState::Connecting },
                ProxyAction::Connect(
                    SocketAddress::V6 { ip: *ip, port: *port, flowinfo: 0, scope_id: 0 },
                ),
            ),
            TargetAddr::Domain(domain, port) => (
                ProxyRun { state: ProxyState::LookingUp },
                ProxyAction::LookUp { domain: domain.clone(), port: *port },
            ),
        }
    }

    /// What the connection does next; nothing, and no change, where the event is not one that it
    /// waits for.
    pub fn step(&mut self, event: ProxyEvent) -> (action: Option<ProxyAction>)
        ensures
            match (action, next_step(old(self).state(), event@)) {
                (Some(a), Some(next)) => (final(self).state(), a@) == next,
                (None, None) => final(self).state() == old(self).state(),
                _ => false,
            },
    {
        let (state, action): (ProxyState, ProxyAction) = match (&self.state, event) {
            (ProxyState::LookingUp, ProxyEvent::LookedUp(addrs)) => if addrs.len() == 0 {
                (ProxyState::Ended, ProxyAction::Finish(Err(ProxyError::NoDnsRecords)))
            } else {
                (ProxyState::Connecting, ProxyAction::Connect(addrs[0]))
            },
            (ProxyState::LookingUp, ProxyEvent::LookUpFailed(e)) => (
                ProxyState::Ended,
                ProxyAction::Finish(Err(ProxyError::DnsResolutionFailed(e))),
            ),
            (ProxyState::Connecting, ProxyEvent::Connected(local)) => (
                ProxyState::ReplyingSuccess,
                ProxyAction::ReplySuccess(local),
            ),
            (ProxyState::Connecting, ProxyEvent::ConnectFailed(e)) => (
                ProxyState::ReplyingError(e.clone()),
                ProxyAction::ReplyError(e),
            ),
            (ProxyState::ReplyingError(e), ProxyEvent::ErrorReplied) => (
                ProxyState::Ended,
                ProxyAction::Finish(Err(ProxyError::ConnectFailed(e.clone()))),
            ),
            (ProxyState::ReplyingSuccess, ProxyEvent::SuccessReplied) => (
                ProxyState::OpeningOutbound,
                ProxyAction::OpenOutbound,
            ),
            (ProxyState::ReplyingSuccess, ProxyEvent::SuccessReplyFailed(e)) => (
                ProxyState::Ended,
                ProxyAction::Finish(Err(ProxyError::ReplyFailed(e))),
            ),
            (ProxyState::OpeningOutbound, ProxyEvent::OutboundOpened) => (
                ProxyState::OpeningInbound,
                ProxyAction::OpenInbound,
            ),
            (ProxyState::OpeningOutbound, ProxyEvent::OutboundFailed(e)) => (
                ProxyState::Ended,
                ProxyAction::Abort("Connection setup failed: ".to_owned().concat(&e)),
            ),
            (ProxyState::OpeningInbound, ProxyEvent::InboundOpened) => (
                ProxyState::Serving,
                ProxyAction::Serve,
            ),
            (ProxyState::OpeningInbound, ProxyEvent::InboundFailed(e)) => (
                ProxyState::Ended,
                ProxyAction::Abort("Connection setup failed: ".to_owned().concat(&e)),
            ),
            (ProxyState::Serving, ProxyEvent::Closed) => (
                ProxyState::Disconnecting,
                ProxyAction::Disconnect,
            ),
            (ProxyState::Serving, ProxyEvent::ClosedWithError(e)) => (
                ProxyState::Ended,
                ProxyAction::Abort("Connection closed with error: ".to_owned().concat(&e)),
            ),
            (ProxyState::Disconnecting, ProxyEvent::Disconnected) => (
                ProxyState::Ended,
                ProxyAction::Finish(Ok(())),
            ),
            (ProxyState::Disconnecting, ProxyEvent::DisconnectFailed(e)) => (
                ProxyState::Ended,
                ProxyAction::Abort(e),
            ),
            _ => {
                return None;
            },
        };
        self.state = state;
        Some(action)
    }
}

/// The state that a sequence of events leads to, where each is one that is waited for.
pub open spec fn run(state: ProxyStateView, events: Seq<ProxyEventView>) -> Option<ProxyStateView>
    decreases events.len(),
{
    if events.len() == 0 {
        Some(state)
    } else {
        match run(state, events.drop_last()) {
            None => None,
            Some(before) => match next_step(before, events.last()) {
                None => None,
                Some((after, _)) => Some(after),
            },
        }
    }
}

/// How many events a connection can still wait for.
pub open spec fn steps_left(state: ProxyStateView) -> nat {
    match state {
        ProxyStateView::LookingUp => 7,
        ProxyStateView::Connecting => 6,
        ProxyStateView::ReplyingError(_) => 1,
        ProxyStateView::ReplyingSuccess => 5,
        ProxyStateView::OpeningOutbound => 4,
        ProxyStateView::OpeningInbound => 3,
        ProxyStateView::Serving => 2,
        ProxyStateView::Disconnecting => 1,
        ProxyStateView::Ended => 0,
    }
}

/// The target was connected to.
pub open spec fn connected(events: Seq<ProxyEventView>) -> bool {
    exists|i: int| 0 <= i < events.len() && #[trigger] events[i] is Connected
}

/// The client was told of the connection.
pub open spec fn told(events: Seq<ProxyEventView>) -> bool {
    exists|i: int| 0 <= i < events.len() && #[trigger] events[i] is SuccessReplied
}

/// The session with the server was opened.
pub open spec fn outbound_opened(events: Seq<ProxyEventView>) -> bool {
    exists|i: int| 0 <= i < events.len() && #[trigger] events[i] is OutboundOpened
}

/// The session with the client was opened.
pub open spec fn inbound_opened(events: Seq<ProxyEventView>) -> bool {
    exists|i: int| 0 <= i < events.len() && #[trigger] events[i] is InboundOpened
}

/// The client is connected to the target that it names: a connection first looks up the target's
/// own domain with the target's own port, or connects to the target's own address and port.
pub proof fn law_starts_with_its_own_target(target: TargetAddr)
    ensures
        match (target, first_step(target)) {
            (
                TargetAddr::Ipv4(ip, port),
                (
                    ProxyStateView::Connecting,
                    ProxyActionView::Connect(SocketAddress::V4 { ip: to, port: to_port }),
                ),
            ) => to == ip && to_port == port,
            (
                TargetAddr::Ipv6(ip, port),
                (
                    ProxyStateView::Connecting,
                    ProxyActionView::Connect(
                        SocketAddress::V6 { ip: to, port: to_port, flowinfo, scope_id },
                    ),
                ),
            ) => to == ip && to_port == port && flowinfo == 0 && scope_id == 0,
            (
                TargetAddr::Domain(domain, port),
                (
                    ProxyStateView::LookingUp,
                    ProxyActionView::LookUp { domain: asked, port: asked_port },
                ),
            ) => asked == domain@ && asked_port == port,
            _ => false,
        },
{
}

/// Each thing is done for one reason. The target is connected to at the first address that the
/// lookup found; the client is told the very address from which, or the very error with which, the
/// target was met; the session with the server is opened once the client was told, the one with the
/// client once that with the server stands; the client is served once both stand; leave is taken of
/// the server once the client is gone; and only then is the connection over in good order.
pub proof fn law_done_for_one_reason(
    state: ProxyStateView,
    event: ProxyEventView,
    next: ProxyStateView,
    action: ProxyActionView,
)
    requires
        next_step(state, event) == Some((next, action)),
    ensures
        match action {
            ProxyActionView::LookUp { .. } => false,
            ProxyActionView::Connect(addr) => {
                &&& state is LookingUp
                &&& event matches ProxyEventView::LookedUp(addrs) && addrs.len() > 0 && addrs[0]
                    == addr
                &&& next is Connecting
            },
            ProxyActionView::ReplyError(e) => {
                &&& state is Connecting
                &&& event == ProxyEventView::ConnectFailed(e)
                &&& next == ProxyStateView::ReplyingError(e)
            },
            ProxyActionView::ReplySuccess(local) => {
                &&& state is Connecting
                &&& event == ProxyEventView::Connected(local)
                &&& next is ReplyingSuccess
            },
            ProxyActionView::OpenOutbound => {
                state is ReplyingSuccess && event is SuccessReplied && next is OpeningOutbound
            },
            ProxyActionView::OpenInbound => {
                state is OpeningOutbound && event is OutboundOpened && next is OpeningInbound
            },
            ProxyActionView::Serve => {
                state is OpeningInbound && event is InboundOpened && next is Serving
            },
            ProxyActionView::Disconnect => {
                state is Serving && event is Closed && next is Disconnecting
            },
            ProxyActionView::Finish(Ok(())) => {
                state is Disconnecting && event is Disconnected && next is Ended
            },
            ProxyActionView::Finish(Err(ProxyErrorView::DnsResolutionFailed(e))) => {
                state is LookingUp && event == ProxyEventView::LookUpFailed(e) && next is Ended
            },
            ProxyActionView::Finish(Err(ProxyErrorView::NoDnsRecords)) => {
                &&& state is LookingUp
                &&& event matches ProxyEventView::LookedUp(addrs) && addrs.len() == 0
                &&& next is Ended
            },
            ProxyActionView::Finish(Err(ProxyErrorView::ConnectFailed(e))) => {
                state == ProxyStateView::ReplyingError(e) && event is ErrorReplied && next is Ended
            },
            ProxyActionView::Finish(Err(ProxyErrorView::ReplyFailed(e))) => {
                &&& state is ReplyingSuccess
                &&& event == ProxyEventView::SuccessReplyFailed(e)
                &&& next is Ended
            },
            ProxyActionView::Abort(why) => {
                &&& next is Ended
                &&& match event {
                    ProxyEventView::OutboundFailed(e) => state is OpeningOutbound && why
                        == "Connection setup failed: "@ + e,
                    ProxyEventView::InboundFailed(e) => state is OpeningInbound && why
                        == "Connection setup failed: "@ + e,
                    ProxyEventView::ClosedWithError(e) => state is Serving && why
                        == "Connection closed with error: "@ + e,
                    ProxyEventView::DisconnectFailed(e) => state is Disconnecting && why == e,
                    _ => false,
                }
            },
        },
{
}

/// What a connection waits for leads on: whatever can come of an action is taken, in the state that
/// the action leaves the connection in, and nothing else is.
pub proof fn law_waits_for_what_can_come(state: ProxyStateView, event: ProxyEventView)
    ensures
        next_step(state, event) is Some <==> match event {
            ProxyEventView::LookedUp(_) | ProxyEventView::LookUpFailed(_) => state is LookingUp,
            ProxyEventView::Connected(_) | ProxyEventView::ConnectFailed(_) => state is Connecting,
            ProxyEventView::ErrorReplied => state is ReplyingError,
            ProxyEventView::SuccessReplied | ProxyEventView::SuccessReplyFailed(_) => {
                state is ReplyingSuccess
            },
            ProxyEventView::OutboundOpened | ProxyEventView::OutboundFailed(_) => {
                state is OpeningOutbound
            },
            ProxyEventView::InboundOpened | ProxyEventView::InboundFailed(_) => {
                state is OpeningInbound
            },
            ProxyEventView::Closed | ProxyEventView::ClosedWithError(_) => state is Serving,
            ProxyEventView::Disconnected | ProxyEventView::DisconnectFailed(_) => {
                state is Disconnecting
            },
        },
{
}

/// A connection ends: every event that it waits for brings it nearer to its end, it is over
/// exactly where it finishes or aborts, and then it waits for nothing.
pub proof fn law_connection_ends(state: ProxyStateView, event: ProxyEventView)
    ensures
        next_step(state, event) matches Some((after, action)) ==> {
            &&& steps_left(after) < steps_left(state)
            &&& (after is Ended) == (action is Finish || action is Abort)
        },
        next_step(ProxyStateView::Ended, event) is None,
{
}

/// The client is served only once the target was connected to, the client was told, and the
/// sessions with the server and with the client were opened.
pub proof fn law_served_only_when_set_up(target: TargetAddr, events: Seq<ProxyEventView>)
    requires
        run(first_step(target).0, events) == Some(ProxyStateView::Serving),
    ensures
        connected(events),
        told(events),
        outbound_opened(events),
        inbound_opened(events),
{
    lemma_set_up(target, events);
}

/// How often the client is told what came of its command over a sequence of events.
pub open spec fn replies(state: ProxyStateView, events: Seq<ProxyEventView>) -> nat
    decreases events.len(),
{
    if events.len() == 0 {
        0
    } else {
        let last: nat = match run(state, events.drop_last()) {
            None => 0,
            Some(before) => match next_step(before, events.last()) {
                Some((_, ProxyActionView::ReplyError(_))) => 1,
                Some((_, ProxyActionView::ReplySuccess(_))) => 1,
                _ => 0,
            },
        };
        replies(state, events.drop_last()) + last
    }
}

/// The client is told at most once what came of its command, and exactly once where it is served.
pub proof fn law_client_is_told_once(target: TargetAddr, events: Seq<ProxyEventView>)
    ensures
        replies(first_step(target).0, events) <= 1,
        run(first_step(target).0, events) == Some(ProxyStateView::Serving) ==> replies(
            first_step(target).0,
            events,
        ) == 1,
{
    lemma_replies(target, events);
}

/// How often the client was told by the time that a state is reached.
proof fn lemma_replies(target: TargetAddr, events: Seq<ProxyEventView>)
    ensures
        replies(first_step(target).0, events) <= 1,
        match run(first_step(target).0, events) {
            None => true,
            Some(ProxyStateView::LookingUp) | Some(ProxyStateView::Connecting) => replies(
                first_step(target).0,
                events,
            ) == 0,
            Some(ProxyStateView::Ended) => true,
            Some(_) => replies(first_step(target).0, events) == 1,
        },
    decreases events.len(),
{
    if events.len() > 0 {
        lemma_replies(target, events.drop_last());
    }
}

/// What has happened by the time that a state is reached.
proof fn lemma_set_up(target: TargetAddr, events: Seq<ProxyEventView>)
    ensures
        run(first_step(target).0, events) matches Some(state) ==> {
            &&& state is ReplyingSuccess || state is OpeningOutbound || state is OpeningInbound
                || state is Serving ==> connected(events)
            &&& state is OpeningOutbound || state is OpeningInbound || state is Serving ==> told(
                events,
            )
            &&& state is OpeningInbound || state is Serving ==> outbound_opened(events)
            &&& state is Serving ==> inbound_opened(events)
        },
    decreases events.len(),
{
    if events.len() > 0 {
        let before = events.drop_last();
        lemma_set_up(target, before);
        assert forall|i: int| 0 <= i < before.len() implies events[i] == before[i] by {}
        assert(events[events.len() - 1] == events.last());
        assert(connected(before) ==> connected(events)) by {
            if connected(before) {
                let i = choose|i: int| 0 <= i < before.len() && #[trigger] before[i] is Connected;
                assert(events[i] is Connected);
            }
        }
        assert(told(before) ==> told(events)) by {
            if told(before) {
                let i = choose|i: int|
                    0 <= i < before.len() && #[trigger] before[i] is SuccessReplied;
                assert(events[i] is SuccessReplied);
            }
        }
        assert(outbound_opened(before) ==> outbound_opened(events)) by {
            if outbound_opened(before) {
                let i = choose|i: int|
                    0 <= i < before.len() && #[trigger] before[i] is OutboundOpened;
                assert(events[i] is OutboundOpened);
            }
        }
    }
}

/// An event reads, over plain sequences, as what it is.
pub proof fn law_view_of_an_event(event: ProxyEvent)
    ensures
        match event {
            ProxyEvent::LookedUp(addrs) => event@ == ProxyEventView::LookedUp(addrs@),
            ProxyEvent::LookUpFailed(e) => event@ == ProxyEventView::LookUpFailed(e@),
            ProxyEvent::Connected(local) => event@ == ProxyEventView::Connected(local),
            ProxyEvent::ConnectFailed(e) => event@ == ProxyEventView::ConnectFailed(e@),
            ProxyEvent::ErrorReplied => event@ is ErrorReplied,
            ProxyEvent::SuccessReplied => event@ is SuccessReplied,
            ProxyEvent::SuccessReplyFailed(e) => event@ == ProxyEventView::SuccessReplyFailed(e@),
            ProxyEvent::OutboundOpened => event@ is OutboundOpened,
            ProxyEvent::OutboundFailed(e) => event@ == ProxyEventView::OutboundFailed(e@),
            ProxyEvent::InboundOpened => event@ is InboundOpened,
            ProxyEvent::InboundFailed(e) => event@ == ProxyEventView::InboundFailed(e@),
            ProxyEvent::Closed => event@ is Closed,
            ProxyEvent::ClosedWithError(e) => event@ == ProxyEventView::ClosedWithError(e@),
            ProxyEvent::Disconnected => event@ is Disconnected,
            ProxyEvent::DisconnectFailed(e) => event@ == ProxyEventView::DisconnectFailed(e@),
        },
{
}

/// An action reads, over plain sequences, as what it is.
pub proof fn law_view_of_an_action(action: ProxyAction)
    ensures
        match action {
            ProxyAction::LookUp { domain, port } => action@ == (ProxyActionView::LookUp {
                domain: domain@,
                port,
            }),
            ProxyAction::Connect(addr) => action@ == ProxyActionView::Connect(addr),
            ProxyAction::ReplyError(e) => action@ == ProxyActionView::ReplyError(e@),
            ProxyAction::ReplySuccess(addr) => action@ == ProxyActionView::ReplySuccess(addr),
            ProxyAction::OpenOutbound => action@ is OpenOutbound,
            ProxyAction::OpenInbound => action@ is OpenInbound,
            ProxyAction::Serve => action@ is Serve,
            ProxyAction::Disconnect => action@ is Disconnect,
            ProxyAction::Finish(Ok(())) => action@ == ProxyActionView::Finish(Ok(())),
            ProxyAction::Finish(Err(ProxyError::DnsResolutionFailed(e))) => action@
                == ProxyActionView::Finish(Err(ProxyErrorView::DnsResolutionFailed(e@))),
            ProxyAction::Finish(Err(ProxyError::NoDnsRecords)) => action@
                == ProxyActionView::Finish(Err(ProxyErrorView::NoDnsRecords)),
            ProxyAction::Finish(Err(ProxyError::ConnectFailed(e))) => action@
                == ProxyActionView::Finish(Err(ProxyErrorView::ConnectFailed(e@))),
            ProxyAction::Finish(Err(ProxyError::ReplyFailed(e))) => action@
                == ProxyActionView::Finish(Err(ProxyErrorView::ReplyFailed(e@))),
            ProxyAction::Abort(why) => action@ == ProxyActionView::Abort(why@),
        },
{
}

} // verus!
