//! One proxied session: who the client is, and which channels belong together.

use crate::keys::PublicKey;
use crate::model::Permission;
use crate::rules::laws;
use crate::rules::policy::{Access, Clients, ExecView, RulesActionView};
use crate::rules::{ExecError, RequestRulesExec};
use crate::target;
use crate::target::{TargetAddr, TargetView};
use crate::text::utf8_text;
use dashmap::DashMap;
use vstd::prelude::*;
use vstd::utf8::*;

verus! {

/// Trusted: `dashmap::DashMap` is opaque here; what a map of channel ids holds is `chan_map`.
#[verifier::external_type_specification]
#[verifier::external_body]
#[verifier::reject_recursive_types(K)]
#[verifier::reject_recursive_types(V)]
#[verifier::reject_recursive_types(S)]
pub struct ExDashMap<K, V, S>(dashmap::DashMap<K, V, S>);

/// What a map of channel ids holds.
pub uninterp spec fn chan_map(chans: DashMap<u32, u32>) -> Map<u32, u32>;

/// A map of channel ids that holds nothing.
///
/// Trusted: `dashmap::DashMap::new` creates an empty map.
#[verifier::external_body]
fn empty_chan_map() -> (empty: DashMap<u32, u32>)
    ensures
        chan_map(empty).dom() == Set::<u32>::empty(),
{
    DashMap::new()
}

/// Puts an id under another one, in place of what was there.
///
/// Trusted: `dashmap::DashMap::insert` puts the value under the key and changes nothing else. The
/// map is borrowed for change, so nobody else changes it meanwhile.
#[verifier::external_body]
fn put_chan(chans: &mut DashMap<u32, u32>, key: u32, value: u32)
    ensures
        chan_map(*final(chans)) == chan_map(*old(chans)).insert(key, value),
{
    chans.insert(key, value);
}

/// The id under another one, where there is one.
///
/// Trusted: `dashmap::DashMap::get` gives the value under the key, and none where there is none.
#[verifier::external_body]
fn look_up_chan(chans: &DashMap<u32, u32>, key: u32) -> (value: Option<u32>)
    ensures
        value == if chan_map(*chans).contains_key(key) {
            Some(chan_map(*chans)[key])
        } else {
            None
        },
{
    match chans.get(&key) {
        Some(value) => Some(*value),
        None => None,
    }
}

/// Who the client is: its user name and its key.
pub struct ClientAuth {
    pub user: String,
    pub key: PublicKey,
}

/// Who the client is, over plain sequences.
pub struct AuthView {
    pub user: Seq<char>,
    pub key: Seq<char>,
}

impl View for ClientAuth {
    type V = AuthView;

    open spec fn view(&self) -> AuthView {
        AuthView { user: self.user@, key: self.key@ }
    }
}

/// A session, over plain maps.
#[verifier::ext_equal]
pub struct SessionView {
    pub target: TargetView,
    pub auth: Option<AuthView>,
    /// The channel of the client to which a channel to the server belongs.
    pub inbound_of: Map<u32, u32>,
    /// The channel to the server that belongs to a channel of the client.
    pub outbound_of: Map<u32, u32>,
}

/// What follows from an attempt of the client to authenticate.
#[derive(Clone, Copy, Debug, PartialEq, Eq, Structural)]
pub enum AuthDecision {
    /// The client is who it says.
    Accept,
    /// The server refused: the session ends.
    AuthenticationFailed,
    /// The client was authenticated before: the session ends.
    AlreadyAuthenticated,
}

/// Why no request to run a command can be made.
#[derive(Clone, Copy, Debug, PartialEq, Eq, Structural)]
pub enum ExecRequestError {
    /// The client is not authenticated.
    NotAuthenticated,
    /// The command is not text.
    NotUtf8,
}

/// A command that waits for its verdict, and the channel of the client on which it came in.
pub struct PendingExec {
    channel: u32,
    command: String,
}

/// A command that waits for its verdict, over plain sequences.
pub struct PendingView {
    pub channel: u32,
    pub command: Seq<char>,
}

impl View for PendingExec {
    type V = PendingView;

    closed spec fn view(&self) -> PendingView {
        PendingView { channel: self.channel, command: self.command@ }
    }
}

/// What follows from the verdict on a command.
#[derive(Clone, Debug, PartialEq, Eq)]
pub enum ExecDecision {
    /// Run the command on this channel to the server.
    Forward { channel: u32, command: String },
    /// The command is refused: the session ends.
    Denied,
    /// No channel to the server belongs to the channel: the session ends.
    UnknownChannel,
}

/// What follows from the verdict on a command, over plain sequences.
pub enum ExecDecisionView {
    Forward { channel: u32, command: Seq<char> },
    Denied,
    UnknownChannel,
}

impl View for ExecDecision {
    type V = ExecDecisionView;

    open spec fn view(&self) -> ExecDecisionView {
        match *self {
            ExecDecision::Forward { channel, command } => ExecDecisionView::Forward {
                channel,
                command: command@,
            },
            ExecDecision::Denied => ExecDecisionView::Denied,
            ExecDecision::UnknownChannel => ExecDecisionView::UnknownChannel,
        }
    }
}

/// The session and the decision after an attempt to authenticate.
pub open spec fn on_auth(
    session: SessionView,
    user: Seq<char>,
    key: Seq<char>,
    success: bool,
) -> (SessionView, AuthDecision) {
    if !success {
        (session, AuthDecision::AuthenticationFailed)
    } else if session.auth is Some {
        (session, AuthDecision::AlreadyAuthenticated)
    } else {
        (SessionView { auth: Some(AuthView { user, key }), ..session }, AuthDecision::Accept)
    }
}

/// The request that a command of the client gives rise to.
pub open spec fn exec_request(
    session: SessionView,
    data: Seq<u8>,
) -> Result<ExecView, ExecRequestError> {
    match session.auth {
        None => Err(ExecRequestError::NotAuthenticated),
        Some(auth) => if valid_utf8(data) {
            Ok(
                ExecView {
                    pk_openssh: auth.key,
                    server_addr: target::target_text(session.target),
                    user: auth.user,
                    data: decode_utf8(data),
                },
            )
        } else {
            Err(ExecRequestError::NotUtf8)
        },
    }
}

/// The command that waits for its verdict once a request for it was made.
pub open spec fn pending_exec(channel: u32, req: ExecView) -> PendingView {
    PendingView { channel, command: req.data }
}

/// The decision after the verdict on a command.
pub open spec fn on_verdict(
    session: SessionView,
    pending: PendingView,
    approved: bool,
) -> ExecDecisionView {
    if !approved {
        ExecDecisionView::Denied
    } else if session.outbound_of.contains_key(pending.channel) {
        ExecDecisionView::Forward {
            channel: session.outbound_of[pending.channel],
            command: pending.command,
        }
    } else {
        ExecDecisionView::UnknownChannel
    }
}

/// The session once two channels belong together.
pub open spec fn join_channels(session: SessionView, inbound: u32, outbound: u32) -> SessionView {
    SessionView {
        inbound_of: session.inbound_of.insert(outbound, inbound),
        outbound_of: session.outbound_of.insert(inbound, outbound),
        ..session
    }
}

/// One proxied session.
pub struct SessionState {
    outbound_server_addr: TargetAddr,
    inbound_client_auth: Option<ClientAuth>,
    outbound_inbound_chan_id_map: DashMap<u32, u32>,
    inbound_outbound_chan_map: DashMap<u32, u32>,
}

impl View for SessionState {
    type V = SessionView;

    closed spec fn view(&self) -> SessionView {
        SessionView {
            target: self.outbound_server_addr@,
            auth: match self.inbound_client_auth {
                Some(auth) => Some(auth@),
                None => None,
            },
            inbound_of: chan_map(self.outbound_inbound_chan_id_map),
            outbound_of: chan_map(self.inbound_outbound_chan_map),
        }
    }
}

impl SessionState {
    /// A session with this target: the client is not authenticated, and no channel is open.
    pub fn new(outbound_server_addr: TargetAddr) -> (session: Self)
        ensures
            session@ == (SessionView {
                target: outbound_server_addr@,
                auth: None,
                inbound_of: Map::empty(),
                outbound_of: Map::empty(),
            }),
    {
        let session = SessionState {
            outbound_server_addr,
            inbound_client_auth: None,
            outbound_inbound_chan_id_map: empty_chan_map(),
            inbound_outbound_chan_map: empty_chan_map(),
        };
        assert(session@.inbound_of =~= Map::empty());
        assert(session@.outbound_of =~= Map::empty());
        session
    }

    /// The channel of the client to which a channel to the server belongs.
    pub fn inbound_chan_id(&self, outbound_id: u32) -> (inbound_id: Option<u32>)
        ensures
            inbound_id == if self@.inbound_of.contains_key(outbound_id) {
                Some(self@.inbound_of[outbound_id])
            } else {
                None
            },
    {
        look_up_chan(&self.outbound_inbound_chan_id_map, outbound_id)
    }

    /// The channel to the server that belongs to a channel of the client.
    pub fn outbound_chan(&self, inbound_id: u32) -> (outbound_id: Option<u32>)
        ensures
            outbound_id == if self@.outbound_of.contains_key(inbound_id) {
                Some(self@.outbound_of[inbound_id])
            } else {
                None
            },
    {
        look_up_chan(&self.inbound_outbound_chan_map, inbound_id)
    }

    /// From now on the two channels belong together.
    pub fn set_chan_map(&mut self, inbound_id: u32, outbound_id: u32)
        ensures
            final(self)@ == join_channels(old(self)@, inbound_id, outbound_id),
            final(self)@.outbound_of == old(self)@.outbound_of.insert(inbound_id, outbound_id),
            final(self)@.inbound_of == old(self)@.inbound_of.insert(outbound_id, inbound_id),
            final(self)@.target == old(self)@.target,
            final(self)@.auth == old(self)@.auth,
    {
        put_chan(&mut self.outbound_inbound_chan_id_map, outbound_id, inbound_id);
        put_chan(&mut self.inbound_outbound_chan_map, inbound_id, outbound_id);
    }

    /// The key of the client in OpenSSH format, once the client is authenticated.
    pub fn inbound_client_pk_openssh(&self) -> (text: Option<String>)
        ensures
            match (text, self@.auth) {
                (Some(t), Some(auth)) => t@ == auth.key,
                (None, None) => true,
                _ => false,
            },
    {
        match &self.inbound_client_auth {
            Some(auth) => Some(auth.key.to_openssh()),
            None => None,
        }
    }

    /// Sets who the client is.
    fn set_inbound_client_auth(&mut self, user: String, key: PublicKey)
        requires
            old(self)@.auth is None,
        ensures
            final(self)@ == (SessionView {
                auth: Some(AuthView { user: user@, key: key@ }),
                ..old(self)@
            }),
    {
        self.inbound_client_auth = Some(ClientAuth { user, key });
    }

    /// The client has authenticated with a key; `success` says whether the server then took the
    /// proxy's own key for the same user.
    pub fn auth_publickey(&mut self, user: &str, key: PublicKey, success: bool) -> (decision:
        AuthDecision)
        ensures
            (final(self)@, decision) == on_auth(old(self)@, user@, key@, success),
            (decision == AuthDecision::AuthenticationFailed) == !success,
            (decision == AuthDecision::Accept) == (success && old(self)@.auth is None),
            final(self)@.auth == if success && old(self)@.auth is None {
                Some(AuthView { user: user@, key: key@ })
            } else {
                old(self)@.auth
            },
            final(self)@.target == old(self)@.target,
            final(self)@.inbound_of == old(self)@.inbound_of,
            final(self)@.outbound_of == old(self)@.outbound_of,
    {
        if !success {
            return AuthDecision::AuthenticationFailed;
        }
        if self.inbound_client_auth.is_some() {
            return AuthDecision::AlreadyAuthenticated;
        }
        self.set_inbound_client_auth(user.to_owned(), key);
        AuthDecision::Accept
    }

    /// The request for a verdict on a command that came in on a channel of the client, and the
    /// command as it waits for the verdict.
    pub fn exec_request(&self, channel: u32, data: &[u8]) -> (request: Result<
        (RequestRulesExec, PendingExec),
        ExecRequestError,
    >)
        ensures
            match request {
                Ok((req, pending)) => {
                    &&& exec_request(self@, data@) == Ok::<ExecView, ExecRequestError>(req@)
                    &&& pending@ == pending_exec(channel, req@)
                },
                Err(e) => exec_request(self@, data@) == Err::<ExecView, ExecRequestError>(e),
            },
            (request is Ok) == (self@.auth is Some && valid_utf8(data@)),
            request matches Ok((req, pending)) ==> {
                &&& req.pk_openssh@ == self@.auth->0.key
                &&& req.user@ == self@.auth->0.user
                &&& req.server_addr@ == target::target_text(self@.target)
                &&& req.data@ == decode_utf8(data@)
                &&& pending@.channel == channel
                &&& pending@.command == decode_utf8(data@)
            },
            request matches Err(e) ==> e == if self@.auth is None {
                ExecRequestError::NotAuthenticated
            } else {
                ExecRequestError::NotUtf8
            },
    {
        let auth: &ClientAuth = match &self.inbound_client_auth {
            Some(auth) => auth,
            None => {
                return Err(ExecRequestError::NotAuthenticated);
            },
        };
        let server_addr: String = self.outbound_server_addr.text();
        match utf8_text(data) {
            Some(text) => {
                let req = RequestRulesExec {
                    pk_openssh: auth.key.to_openssh(),
                    server_addr,
                    user: auth.user.clone(),
                    data: text.to_owned(),
                };
                Ok((req, PendingExec { channel, command: text.to_owned() }))
            },
            None => Err(ExecRequestError::NotUtf8),
        }
    }

    /// What follows from the verdict on a command.
    pub fn exec_verdict(&self, pending: PendingExec, verdict: &Result<(), ExecError>) -> (decision:
        ExecDecision)
        ensures
            decision@ == on_verdict(self@, pending@, *verdict is Ok),
            (decision is Denied) == (*verdict is Err),
            (decision is Forward) == (*verdict is Ok && self@.outbound_of.contains_key(
                pending@.channel,
            )),
            decision matches ExecDecision::Forward { channel, command } ==> {
                &&& channel == self@.outbound_of[pending@.channel]
                &&& command@ == pending@.command
            },
    {
        if verdict.is_err() {
            return ExecDecision::Denied;
        }
        match self.outbound_chan(pending.channel) {
            Some(channel) => ExecDecision::Forward { channel, command: pending.command },
            None => ExecDecision::UnknownChannel,
        }
    }
}

/// The two maps of channels say the same: each is the other, read backwards.
pub open spec fn paired(session: SessionView) -> bool {
    &&& forall|inbound: u32| #[trigger]
        session.outbound_of.contains_key(inbound) ==> session.inbound_of.contains_key(
            session.outbound_of[inbound],
        ) && session.inbound_of[session.outbound_of[inbound]] == inbound
    &&& forall|outbound: u32| #[trigger]
        session.inbound_of.contains_key(outbound) ==> session.outbound_of.contains_key(
            session.inbound_of[outbound],
        ) && session.outbound_of[session.inbound_of[outbound]] == outbound
}

/// What comes in on a channel goes out on the one that belongs to it, and back: joining two
/// channels that are not in use yet leads from each to the other, keeps every other pair, and
/// keeps the two maps in agreement. A new session has them in agreement.
pub proof fn law_channels_lead_to_each_other(
    session: SessionView,
    inbound: u32,
    outbound: u32,
    other: u32,
)
    requires
        paired(session),
        !session.outbound_of.contains_key(inbound),
        !session.inbound_of.contains_key(outbound),
    ensures
        ({
            let after = join_channels(session, inbound, outbound);
            &&& paired(after)
            &&& after.outbound_of.contains_key(inbound) && after.outbound_of[inbound] == outbound
            &&& after.inbound_of.contains_key(outbound) && after.inbound_of[outbound] == inbound
            &&& session.outbound_of.contains_key(other) ==> after.outbound_of.contains_key(other)
                && after.outbound_of[other] == session.outbound_of[other]
            &&& session.inbound_of.contains_key(other) ==> after.inbound_of.contains_key(other)
                && after.inbound_of[other] == session.inbound_of[other]
        }),
        paired(SessionView { inbound_of: Map::empty(), outbound_of: Map::empty(), ..session }),
{
}

/// Who the client is, is settled once: no later attempt to authenticate changes it, and every
/// request that the client makes carries its key and its user name and the session's target.
pub proof fn law_requests_carry_the_authenticated_client(
    session: SessionView,
    user: Seq<char>,
    key: Seq<char>,
    later_user: Seq<char>,
    later_key: Seq<char>,
    later_success: bool,
    data: Seq<u8>,
)
    requires
        session.auth is None,
        valid_utf8(data),
    ensures
        ({
            let after = on_auth(session, user, key, true).0;
            let later = on_auth(after, later_user, later_key, later_success).0;
            &&& later == after
            &&& exec_request(later, data) == Ok::<ExecView, ExecRequestError>(
                ExecView {
                    pk_openssh: key,
                    server_addr: target::target_text(session.target),
                    user,
                    data: decode_utf8(data),
                },
            )
        }),
{
}

/// The client is accepted exactly where the server took the proxy's key and no client was accepted
/// before; then the session holds its user name and its key. A refusal by the server is a failed
/// authentication, whatever the session holds, and leaves the session as it was. No attempt
/// touches the target or the channels.
pub proof fn law_accepted_only_with_the_server(
    session: SessionView,
    user: Seq<char>,
    key: Seq<char>,
    success: bool,
)
    ensures
        ({
            let (after, decision) = on_auth(session, user, key, success);
            &&& (decision == AuthDecision::Accept) == (success && session.auth is None)
            &&& (decision == AuthDecision::AuthenticationFailed) == !success
            &&& (decision == AuthDecision::AlreadyAuthenticated) == (success && session.auth is Some)
            &&& decision != AuthDecision::Accept ==> after == session
            &&& decision == AuthDecision::Accept ==> after.auth == Some(AuthView { user, key })
            &&& after.target == session.target
            &&& after.inbound_of == session.inbound_of
            &&& after.outbound_of == session.outbound_of
        }),
{
}

/// A request is made exactly where the client is authenticated and the command is text; it names
/// the client, the session's target and the whole command, and the command that waits is the same,
/// on the channel on which it came in.
pub proof fn law_request_says_who_where_and_what(session: SessionView, channel: u32, data: Seq<u8>)
    ensures
        (exec_request(session, data) is Ok) == (session.auth is Some && valid_utf8(data)),
        (exec_request(session, data) == Err::<ExecView, ExecRequestError>(
            ExecRequestError::NotAuthenticated,
        )) == (session.auth is None),
        exec_request(session, data) matches Ok(req) ==> {
            &&& Some((req.user, req.pk_openssh)) == match session.auth {
                Some(auth) => Some((auth.user, auth.key)),
                None => None,
            }
            &&& req.server_addr == target::target_text(session.target)
            &&& encode_utf8(req.data) == data
            &&& pending_exec(channel, req).channel == channel
            &&& encode_utf8(pending_exec(channel, req).command) == data
        },
{
    if valid_utf8(data) {
        decode_utf8_encode_utf8(data);
    }
}

/// What is approved is run: with an approval, the command goes out, whole, on the channel that
/// belongs to the one on which it came in, whatever their numbers. Only a refusal denies a command,
/// and a refusal always does.
pub proof fn law_approved_command_runs(session: SessionView, pending: PendingView, approved: bool)
    ensures
        (on_verdict(session, pending, approved) is Denied) == !approved,
        approved && session.outbound_of.contains_key(pending.channel) ==> on_verdict(
            session,
            pending,
            approved,
        ) == (ExecDecisionView::Forward {
            channel: session.outbound_of[pending.channel],
            command: pending.command,
        }),
        (on_verdict(session, pending, approved) is UnknownChannel) == (approved
            && !session.outbound_of.contains_key(pending.channel)),
{
}

/// Joining two channels makes each lead to the other, whether they were in use or not, and touches
/// nothing else: no other channel, not the target, not the client.
pub proof fn law_joining_touches_two_channels(
    session: SessionView,
    inbound: u32,
    outbound: u32,
    other: u32,
)
    ensures
        ({
            let after = join_channels(session, inbound, outbound);
            &&& after.outbound_of.contains_key(other) == (other == inbound
                || session.outbound_of.contains_key(other))
            &&& after.inbound_of.contains_key(other) == (other == outbound
                || session.inbound_of.contains_key(other))
            &&& after.outbound_of[inbound] == outbound
            &&& after.inbound_of[outbound] == inbound
            &&& other != inbound ==> after.outbound_of[other] == session.outbound_of[other]
            &&& other != outbound ==> after.inbound_of[other] == session.inbound_of[other]
            &&& after.target == session.target
            &&& after.auth == session.auth
        }),
{
}

/// No command is run that was not approved: what is run is the command that the request carries, on
/// the channel that belongs to the one on which it came in, and it is git's; it asks for an access
/// to a path that the rules allow the authenticated client at the session's target, or that the
/// user does, being asked. Without an authenticated client there is no request. `clients` are the
/// rules as the request comes in, `words` are the words of the command, and `name`, `now` and
/// `future` are the user's answers.
pub proof fn law_nothing_runs_unapproved(
    session: SessionView,
    channel: u32,
    data: Seq<u8>,
    clients: Clients,
    words: Option<Seq<Seq<char>>>,
    name: Option<Seq<char>>,
    now: bool,
    future: Permission,
)
    ensures
        session.auth is None ==> exec_request(session, data) is Err,
        exec_request(session, data) matches Ok(req) ==> {
            let last = laws::conversation(clients, req, words, name, now, future);
            &&& last.action matches RulesActionView::Reply { result, .. }
            &&& match on_verdict(session, pending_exec(channel, req), result is Ok) {
                ExecDecisionView::Forward { channel: outbound, command } => {
                    &&& result is Ok
                    &&& command == req.data
                    &&& command == decode_utf8(data)
                    &&& session.outbound_of.contains_key(channel)
                    &&& outbound == session.outbound_of[channel]
                    &&& session.auth is Some
                    &&& exists|access: Access, path: Seq<char>| #[trigger]
                        laws::asks_for(req, words, access, path) && laws::allowed(
                            laws::decision(
                                clients,
                                session.auth->0.key,
                                target::target_text(session.target),
                                path,
                                access,
                            ),
                            now,
                        )
                },
                _ => true,
            }
        },
{
    if let Ok(req) = exec_request(session, data) {
        laws::law_saved_exactly_when_changed(clients, req, words, name, now, future);
        if laws::conversation(clients, req, words, name, now, future).action->result is Ok {
            laws::law_approved_only_if_allowed(clients, req, words, name, now, future);
        }
    }
}

/// A decision and a client read, over plain sequences, as what they are.
pub proof fn law_views_of_the_session(decision: ExecDecision, auth: ClientAuth)
    ensures
        match decision {
            ExecDecision::Forward { channel, command } => decision@ == (ExecDecisionView::Forward {
                channel,
                command: command@,
            }),
            ExecDecision::Denied => decision@ == ExecDecisionView::Denied,
            ExecDecision::UnknownChannel => decision@ == ExecDecisionView::UnknownChannel,
        },
        auth@.user == auth.user@,
        auth@.key == auth.key@,
{
}

} // verus!
