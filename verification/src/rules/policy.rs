//! What the rules say of a request, over plain maps.

use crate::model::Permission;
use vstd::prelude::*;

verus! {

/// The two ways in which git uses a repository.
#[derive(Clone, Copy, Debug, PartialEq, Eq, Structural)]
pub enum Access {
    Read,
    Write,
}

/// What is decided about one repository.
#[derive(Clone, Copy, Debug, PartialEq, Eq, Structural)]
pub struct GitAccessRule {
    pub read: Permission,
    pub write: Permission,
}

impl GitAccessRule {
    /// Nothing is decided.
    pub open spec fn undecided() -> GitAccessRule {
        GitAccessRule { read: Permission::Ask, write: Permission::Ask }
    }

    /// The decision about one access.
    pub open spec fn permission(self, access: Access) -> Permission {
        match access {
            Access::Read => self.read,
            Access::Write => self.write,
        }
    }

    /// The rule with another decision about one access.
    pub open spec fn decide(self, access: Access, permission: Permission) -> GitAccessRule {
        match access {
            Access::Read => GitAccessRule { read: permission, ..self },
            Access::Write => GitAccessRule { write: permission, ..self },
        }
    }
}

/// The decisions about the repositories of one server, by path.
pub type Paths = Map<Seq<char>, GitAccessRule>;

/// What is decided for one server.
#[verifier::ext_equal]
pub struct ServerView {
    pub git: Paths,
}

/// What is decided for one client, by server address.
#[verifier::ext_equal]
pub struct ClientView {
    pub name: Seq<char>,
    pub servers: Map<Seq<char>, ServerView>,
}

/// What is decided for all clients, by public key.
pub type Clients = Map<Seq<char>, ClientView>;

/// A request to run a command on a server.
pub struct ExecView {
    pub pk_openssh: Seq<char>,
    pub server_addr: Seq<char>,
    pub user: Seq<char>,
    pub data: Seq<char>,
}

/// Why the rules for git refuse a command.
pub enum GitErrorView {
    ParsingCommand,
    MissingArg0,
    MissingArg1,
    ReadNotAllowed,
    WriteNotAllowed,
    InteractivelyDenied,
    InvalidCommand(Seq<char>),
}

/// Why a request is refused.
pub enum ExecErrorView {
    NoClientName,
    NoPluginMatches { user: Seq<char>, data: Seq<char> },
    GitRule(GitErrorView),
}

/// What the rules for git make of a command: a verdict, or a question.
pub enum GitStepView {
    Done(Result<(), GitErrorView>),
    Ask { path: Seq<char>, access: Access },
}

/// What the rules for a client make of a request: a verdict, or a question.
pub enum ExecStepView {
    Done(Result<(), ExecErrorView>),
    Ask { path: Seq<char>, access: Access },
}

/// What the rules wait for.
pub enum WaitingView {
    Nothing,
    /// The name of the client that made this request.
    ClientName(ExecView),
    /// The user's answer for a path of a server; `updated` says whether the rules changed since
    /// the request came in.
    Permission {
        pk_openssh: Seq<char>,
        server_addr: Seq<char>,
        path: Seq<char>,
        access: Access,
        updated: bool,
    },
}

/// What is to be done next.
pub enum RulesActionView {
    /// Ask the user for the name of the client with this key.
    AskClientName { pk_openssh: Seq<char> },
    /// Ask the user whether the client with this key may do this.
    AskPermission { pk_openssh: Seq<char>, action: Seq<char> },
    /// Save the rules where `save` says so, then answer the request.
    Reply { result: Result<(), ExecErrorView>, save: bool },
}

/// The rules, what they wait for, and what is to be done next.
pub struct RulesStep {
    pub clients: Clients,
    pub waiting: WaitingView,
    pub action: RulesActionView,
}

/// The command with which git reads.
pub open spec fn upload_pack() -> Seq<char> {
    "git-upload-pack"@
}

/// The command with which git writes.
pub open spec fn receive_pack() -> Seq<char> {
    "git-receive-pack"@
}

/// Whether the rules for git are to judge a request.
pub open spec fn is_git(user: Seq<char>, data: Seq<char>) -> bool {
    user == "git"@ && (upload_pack().is_prefix_of(data) || receive_pack().is_prefix_of(data))
}

/// What the user is asked to allow.
pub open spec fn action_text(access: Access, path: Seq<char>) -> Seq<char> {
    match access {
        Access::Read => "read from "@ + path,
        Access::Write => "write to "@ + path,
    }
}

/// The access for which a command word stands.
pub open spec fn command_access(word: Seq<char>) -> Option<Access> {
    if word == upload_pack() {
        Some(Access::Read)
    } else if word == receive_pack() {
        Some(Access::Write)
    } else {
        None
    }
}

/// The verdict where the decision is no.
pub open spec fn not_allowed(access: Access) -> GitErrorView {
    match access {
        Access::Read => GitErrorView::ReadNotAllowed,
        Access::Write => GitErrorView::WriteNotAllowed,
    }
}

/// The paths once a command was looked up: the path that it names is among them.
pub open spec fn touch_path(paths: Paths, words: Option<Seq<Seq<char>>>) -> Paths {
    match words {
        Some(w) => if w.len() >= 2 && !paths.contains_key(w[1]) {
            paths.insert(w[1], GitAccessRule::undecided())
        } else {
            paths
        },
        None => paths,
    }
}

/// What the rules for git make of the words of a command.
pub open spec fn git_step(paths: Paths, words: Option<Seq<Seq<char>>>) -> GitStepView {
    match words {
        None => GitStepView::Done(Err(GitErrorView::ParsingCommand)),
        Some(w) => if w.len() == 0 {
            GitStepView::Done(Err(GitErrorView::MissingArg0))
        } else if w.len() == 1 {
            GitStepView::Done(Err(GitErrorView::MissingArg1))
        } else {
            match command_access(w[0]) {
                None => GitStepView::Done(Err(GitErrorView::InvalidCommand(w[0]))),
                Some(access) => match touch_path(paths, words)[w[1]].permission(access) {
                    Permission::Yes => GitStepView::Done(Ok(())),
                    Permission::No => GitStepView::Done(Err(not_allowed(access))),
                    Permission::Ask => GitStepView::Ask { path: w[1], access },
                },
            }
        },
    }
}

/// The paths once the user has answered for one of them.
pub open spec fn answer_path(
    paths: Paths,
    path: Seq<char>,
    access: Access,
    future: Permission,
) -> Paths {
    if future is Ask {
        paths
    } else {
        paths.insert(path, paths[path].decide(access, future))
    }
}

/// The verdict that the user's answer gives.
pub open spec fn answer_verdict(now: bool) -> Result<(), GitErrorView> {
    if now {
        Ok(())
    } else {
        Err(GitErrorView::InteractivelyDenied)
    }
}

/// A verdict of the rules for git, as the verdict on the request.
pub open spec fn git_rule(result: Result<(), GitErrorView>) -> Result<(), ExecErrorView> {
    match result {
        Ok(()) => Ok(()),
        Err(e) => Err(ExecErrorView::GitRule(e)),
    }
}

/// The servers of a client once one was looked up: it is among them.
pub open spec fn touch_server(
    servers: Map<Seq<char>, ServerView>,
    addr: Seq<char>,
) -> Map<Seq<char>, ServerView> {
    if servers.contains_key(addr) {
        servers
    } else {
        servers.insert(addr, ServerView { git: Map::empty() })
    }
}

/// The client once a request was judged. `words` are the words of the request's command.
pub open spec fn touch_client(
    client: ClientView,
    req: ExecView,
    words: Option<Seq<Seq<char>>>,
) -> ClientView {
    let servers = touch_server(client.servers, req.server_addr);
    if is_git(req.user, req.data) {
        let git = touch_path(servers[req.server_addr].git, words);
        ClientView { servers: servers.insert(req.server_addr, ServerView { git }), ..client }
    } else {
        ClientView { servers, ..client }
    }
}

/// What the rules for a client make of a request. `words` are the words of its command.
pub open spec fn client_step(
    client: ClientView,
    req: ExecView,
    words: Option<Seq<Seq<char>>>,
) -> ExecStepView {
    if is_git(req.user, req.data) {
        let servers = touch_server(client.servers, req.server_addr);
        match git_step(servers[req.server_addr].git, words) {
            GitStepView::Done(result) => ExecStepView::Done(git_rule(result)),
            GitStepView::Ask { path, access } => ExecStepView::Ask { path, access },
        }
    } else {
        ExecStepView::Done(
            Err(ExecErrorView::NoPluginMatches { user: req.user, data: req.data }),
        )
    }
}

/// The client once the user has answered for a path of one of its servers.
pub open spec fn answer_client(
    client: ClientView,
    server_addr: Seq<char>,
    path: Seq<char>,
    access: Access,
    future: Permission,
) -> ClientView {
    let git = answer_path(client.servers[server_addr].git, path, access, future);
    ClientView { servers: client.servers.insert(server_addr, ServerView { git }), ..client }
}

/// A client of which only the name is known.
pub open spec fn new_client(name: Seq<char>) -> ClientView {
    ClientView { name, servers: Map::empty() }
}

/// Judging the request of a known client. `updated` says whether the rules changed already since
/// the request came in.
pub open spec fn judge(
    clients: Clients,
    req: ExecView,
    words: Option<Seq<Seq<char>>>,
    updated: bool,
) -> RulesStep {
    let before = clients[req.pk_openssh];
    let after = touch_client(before, req, words);
    let updated_now = updated || after != before;
    match client_step(before, req, words) {
        ExecStepView::Done(result) => RulesStep {
            clients: clients.insert(req.pk_openssh, after),
            waiting: WaitingView::Nothing,
            action: RulesActionView::Reply { result, save: updated_now },
        },
        ExecStepView::Ask { path, access } => RulesStep {
            clients: clients.insert(req.pk_openssh, after),
            waiting: WaitingView::Permission {
                pk_openssh: req.pk_openssh,
                server_addr: req.server_addr,
                path,
                access,
                updated: updated_now,
            },
            action: RulesActionView::AskPermission {
                pk_openssh: req.pk_openssh,
                action: action_text(access, path),
            },
        },
    }
}

/// A request comes in.
pub open spec fn on_request(
    clients: Clients,
    req: ExecView,
    words: Option<Seq<Seq<char>>>,
) -> RulesStep {
    if clients.contains_key(req.pk_openssh) {
        judge(clients, req, words, false)
    } else {
        RulesStep {
            clients,
            waiting: WaitingView::ClientName(req),
            action: RulesActionView::AskClientName { pk_openssh: req.pk_openssh },
        }
    }
}

/// The user has named the client that made the request `req`, or has not.
pub open spec fn on_client_name(
    clients: Clients,
    req: ExecView,
    words: Option<Seq<Seq<char>>>,
    name: Option<Seq<char>>,
) -> RulesStep {
    match name {
        None => RulesStep {
            clients,
            waiting: WaitingView::Nothing,
            action: RulesActionView::Reply {
                result: Err(ExecErrorView::NoClientName),
                save: false,
            },
        },
        Some(n) => judge(clients.insert(req.pk_openssh, new_client(n)), req, words, true),
    }
}

/// The user has answered for a path.
pub open spec fn on_permission(
    clients: Clients,
    pk_openssh: Seq<char>,
    server_addr: Seq<char>,
    path: Seq<char>,
    access: Access,
    updated: bool,
    now: bool,
    future: Permission,
) -> RulesStep {
    RulesStep {
        clients: clients.insert(
            pk_openssh,
            answer_client(clients[pk_openssh], server_addr, path, access, future),
        ),
        waiting: WaitingView::Nothing,
        action: RulesActionView::Reply {
            result: git_rule(answer_verdict(now)),
            save: updated || future !is Ask,
        },
    }
}

/// Where the name of a client is awaited, the client is unknown; where an answer about a path is
/// awaited, that path is known and undecided.
pub open spec fn coherent(clients: Clients, waiting: WaitingView) -> bool {
    match waiting {
        WaitingView::ClientName(req) => !clients.contains_key(req.pk_openssh),
        WaitingView::Permission { pk_openssh, server_addr, path, access, .. } => {
            &&& clients.contains_key(pk_openssh)
            &&& clients[pk_openssh].servers.contains_key(server_addr)
            &&& clients[pk_openssh].servers[server_addr].git.contains_key(path)
            &&& clients[pk_openssh].servers[server_addr].git[path].permission(access) is Ask
        },
        WaitingView::Nothing => true,
    }
}

/// How a refusal by the rules for git reads.
pub open spec fn git_error_text(error: GitErrorView) -> Seq<char> {
    match error {
        GitErrorView::ParsingCommand => "parsing command"@,
        GitErrorView::MissingArg0 => "missing arg0"@,
        GitErrorView::MissingArg1 => "missing arg1"@,
        GitErrorView::ReadNotAllowed => "read not allowed"@,
        GitErrorView::WriteNotAllowed => "write not allowed"@,
        GitErrorView::InteractivelyDenied => "interactively denied"@,
        GitErrorView::InvalidCommand(command) => "invalid command "@ + command,
    }
}

/// How a refusal reads.
pub open spec fn exec_error_text(error: ExecErrorView) -> Seq<char> {
    match error {
        ExecErrorView::NoClientName => "no client name set"@,
        ExecErrorView::NoPluginMatches { user, data } => "no plugin matches with user:"@ + user
            + ", data:"@ + data,
        ExecErrorView::GitRule(_) => "git rule"@,
    }
}

} // verus!
