//! Which client may run which git command on which server.
//!
//! The rules judge one request at a time. A request leads to a verdict, or to a question to the
//! user; the user's answer leads on. Whoever drives the rules puts the questions, hands in the
//! answers and saves the rules when told to.

use crate::model::Permission;
use crate::str_map::StrMap;
use crate::text;
use crate::text::{same_text, starts_with};
use crate::ui::messages::{
    ReplyClientName, ReplyPermission, RequestClientName, RequestPermission,
};
use vstd::prelude::*;
use vstd::string::*;

pub mod laws;
pub mod policy;

use policy::{Access, GitAccessRule};

verus! {

/// A request to run a command on a server.
pub struct RequestRulesExec {
    pub pk_openssh: String,
    pub server_addr: String,
    pub user: String,
    pub data: String,
}

impl View for RequestRulesExec {
    type V = policy::ExecView;

    open spec fn view(&self) -> policy::ExecView {
        policy::ExecView {
            pk_openssh: self.pk_openssh@,
            server_addr: self.server_addr@,
            user: self.user@,
            data: self.data@,
        }
    }
}

/// Why the rules for git refuse a command.
#[derive(Debug)]
pub enum GitError {
    ParsingCommand,
    MissingArg0,
    MissingArg1,
    ReadNotAllowed,
    WriteNotAllowed,
    InteractivelyDenied,
    InvalidCommand(String),
}

impl View for GitError {
    type V = policy::GitErrorView;

    open spec fn view(&self) -> policy::GitErrorView {
        match *self {
            GitError::ParsingCommand => policy::GitErrorView::ParsingCommand,
            GitError::MissingArg0 => policy::GitErrorView::MissingArg0,
            GitError::MissingArg1 => policy::GitErrorView::MissingArg1,
            GitError::ReadNotAllowed => policy::GitErrorView::ReadNotAllowed,
            GitError::WriteNotAllowed => policy::GitErrorView::WriteNotAllowed,
            GitError::InteractivelyDenied => policy::GitErrorView::InteractivelyDenied,
            GitError::InvalidCommand(c) => policy::GitErrorView::InvalidCommand(c@),
        }
    }
}

/// Why a request is refused.
#[derive(Debug)]
pub enum ExecError {
    NoClientName,
    NoPluginMatches { user: String, data: String },
    GitRule(GitError),
}

impl View for ExecError {
    type V = policy::ExecErrorView;

    open spec fn view(&self) -> policy::ExecErrorView {
        match *self {
            ExecError::NoClientName => policy::ExecErrorView::NoClientName,
            ExecError::NoPluginMatches { user, data } => policy::ExecErrorView::NoPluginMatches {
                user: user@,
                data: data@,
            },
            ExecError::GitRule(e) => policy::ExecErrorView::GitRule(e@),
        }
    }
}

impl GitError {
    /// How the refusal reads.
    pub fn message(&self) -> (text: String)
        ensures
            text@ == policy::git_error_text(self@),
            text@ == match *self {
                GitError::ParsingCommand => "parsing command"@,
                GitError::MissingArg0 => "missing arg0"@,
                GitError::MissingArg1 => "missing arg1"@,
                GitError::ReadNotAllowed => "read not allowed"@,
                GitError::WriteNotAllowed => "write not allowed"@,
                GitError::InteractivelyDenied => "interactively denied"@,
                GitError::InvalidCommand(command) => "invalid command "@ + command@,
            },
    {
        match self {
            GitError::ParsingCommand => "parsing command".to_owned(),
            GitError::MissingArg0 => "missing arg0".to_owned(),
            GitError::MissingArg1 => "missing arg1".to_owned(),
            GitError::ReadNotAllowed => "read not allowed".to_owned(),
            GitError::WriteNotAllowed => "write not allowed".to_owned(),
            GitError::InteractivelyDenied => "interactively denied".to_owned(),
            GitError::InvalidCommand(command) => {
                let mut text: String = "invalid command ".to_owned();
                text.append(command);
                text
            },
        }
    }
}

impl ExecError {
    /// How the refusal reads. What the rules for git say is not part of it; see
    /// `GitError::message`.
    pub fn message(&self) -> (text: String)
        ensures
            text@ == policy::exec_error_text(self@),
            text@ == match *self {
                ExecError::NoClientName => "no client name set"@,
                ExecError::NoPluginMatches { user, data } => "no plugin matches with user:"@ + user@
                    + ", data:"@ + data@,
                ExecError::GitRule(_) => "git rule"@,
            },
    {
        match self {
            ExecError::NoClientName => "no client name set".to_owned(),
            ExecError::NoPluginMatches { user, data } => {
                let mut text: String = "no plugin matches with user:".to_owned();
                text.append(user);
                text.append(", data:");
                text.append(data);
                text
            },
            ExecError::GitRule(_) => "git rule".to_owned(),
        }
    }
}

/// A verdict of the rules for git.
pub open spec fn git_result(result: Result<(), GitError>) -> Result<(), policy::GitErrorView> {
    match result {
        Ok(()) => Ok(()),
        Err(e) => Err(e@),
    }
}

/// A verdict on a request.
pub open spec fn exec_result(result: Result<(), ExecError>) -> Result<(), policy::ExecErrorView> {
    match result {
        Ok(()) => Ok(()),
        Err(e) => Err(e@),
    }
}

/// The words of a command, where it has any.
pub open spec fn words_view(words: Option<Vec<String>>) -> Option<Seq<Seq<char>>> {
    match words {
        Some(w) => Some(text::texts(w@)),
        None => None,
    }
}

/// What the rules for git make of a command: a verdict, or a question about a path.
pub enum GitStep {
    Done(Result<(), GitError>),
    Ask { path: String, access: Access },
}

impl View for GitStep {
    type V = policy::GitStepView;

    open spec fn view(&self) -> policy::GitStepView {
        match *self {
            GitStep::Done(result) => policy::GitStepView::Done(git_result(result)),
            GitStep::Ask { path, access } => policy::GitStepView::Ask { path: path@, access },
        }
    }
}

/// What the rules for a client make of a request: a verdict, or a question about a path.
pub enum ExecStep {
    Done(Result<(), ExecError>),
    Ask { path: String, access: Access },
}

impl View for ExecStep {
    type V = policy::ExecStepView;

    open spec fn view(&self) -> policy::ExecStepView {
        match *self {
            ExecStep::Done(result) => policy::ExecStepView::Done(exec_result(result)),
            ExecStep::Ask { path, access } => policy::ExecStepView::Ask { path: path@, access },
        }
    }
}

/// The words into which a shell would split a command line, or none where the line ends inside a
/// quotation or behind a backslash.
pub uninterp spec fn shell_words(line: Seq<char>) -> Option<Seq<Seq<char>>>;

/// Splits a command line into words.
///
/// Trusted: `shlex::split` is a function of the line alone; `shell_words` names its result.
#[verifier::external_body]
fn split_words(line: &str) -> (words: Option<Vec<String>>)
    ensures
        words_view(words) == shell_words(line@),
{
    shlex::split(line)
}

impl View for GitAccessRule {
    type V = GitAccessRule;

    open spec fn view(&self) -> GitAccessRule {
        *self
    }
}

impl Default for GitAccessRule {
    fn default() -> (rule: Self)
        ensures
            rule == GitAccessRule::undecided(),
            rule.read == Permission::Ask,
            rule.write == Permission::Ask,
    {
        GitAccessRule { read: Permission::Ask, write: Permission::Ask }
    }
}

/// The decisions about the repositories of one server, by path.
#[derive(Debug)]
pub struct GitRules {
    pub paths: StrMap<GitAccessRule>,
}

impl View for GitRules {
    type V = policy::Paths;

    open spec fn view(&self) -> policy::Paths {
        self.paths@
    }
}

impl Default for GitRules {
    fn default() -> (rules: Self)
        ensures
            rules@ == policy::Paths::empty(),
    {
        GitRules::new()
    }
}

impl Clone for GitRules {
    fn clone(&self) -> (copy: Self)
        ensures
            copy@ == self@,
    {
        GitRules { paths: self.paths.clone() }
    }
}

impl GitRules {
    /// No decisions.
    pub fn new() -> (rules: Self)
        ensures
            rules@ == policy::Paths::empty(),
    {
        GitRules { paths: StrMap::new() }
    }

    /// Whether the rules for git are to judge a request.
    pub fn matches_exec(user: &str, data: &str) -> (matches: bool)
        ensures
            matches == policy::is_git(user@, data@),
            matches == (user@ == "git"@ && ("git-upload-pack"@.is_prefix_of(data@)
                || "git-receive-pack"@.is_prefix_of(data@))),
    {
        same_text(user, "git") && (starts_with(data, "git-upload-pack") || starts_with(
            data,
            "git-receive-pack",
        ))
    }

    /// Judges a command by its words. `updated` is set where a path is added.
    pub fn validate_words(&mut self, updated: &mut bool, words: &Option<Vec<String>>) -> (step:
        GitStep)
        ensures
            final(self)@ == policy::touch_path(old(self)@, words_view(*words)),
            *final(updated) == (*old(updated) || final(self)@ != old(self)@),
            step@ == policy::git_step(old(self)@, words_view(*words)),
    {
        let words: &Vec<String> = match words {
            Some(words) => words,
            None => {
                return GitStep::Done(Err(GitError::ParsingCommand));
            },
        };
        if words.len() == 0 {
            return GitStep::Done(Err(GitError::MissingArg0));
        }
        if words.len() == 1 {
            return GitStep::Done(Err(GitError::MissingArg1));
        }
        let command: &String = &words[0];
        let path: &String = &words[1];
        let rule: GitAccessRule = *self.paths.get_or_insert(path, GitAccessRule::default(), updated);
        proof {
            if old(self)@.contains_key(path@) {
                assert(self@ =~= old(self)@);
            } else {
                assert(self@.contains_key(path@));
            }
        }
        let access: Access = if same_text(command, "git-upload-pack") {
            Access::Read
        } else if same_text(command, "git-receive-pack") {
            Access::Write
        } else {
            return GitStep::Done(Err(GitError::InvalidCommand(command.clone())));
        };
        let permission: Permission = match access {
            Access::Read => rule.read,
            Access::Write => rule.write,
        };
        match permission {
            Permission::Yes => GitStep::Done(Ok(())),
            Permission::No => match access {
                Access::Read => GitStep::Done(Err(GitError::ReadNotAllowed)),
                Access::Write => GitStep::Done(Err(GitError::WriteNotAllowed)),
            },
            Permission::Ask => GitStep::Ask { path: path.clone(), access },
        }
    }

    /// Judges the command of a request. `updated` is set where a path is added.
    pub fn validate_exec(&mut self, updated: &mut bool, req: &RequestRulesExec) -> (step: GitStep)
        ensures
            final(self)@ == policy::touch_path(old(self)@, shell_words(req.data@)),
            *final(updated) == (*old(updated) || final(self)@ != old(self)@),
            step@ == policy::git_step(old(self)@, shell_words(req.data@)),
    {
        let words: Option<Vec<String>> = split_words(&req.data);
        self.validate_words(updated, &words)
    }

    /// Takes in the user's answer for a path, and gives the verdict. `updated` is set where the
    /// answer decides for the times to come.
    pub fn answer(
        &mut self,
        updated: &mut bool,
        path: &String,
        access: Access,
        reply: &ReplyPermission,
    ) -> (result: Result<(), GitError>)
        requires
            old(self)@.contains_key(path@),
        ensures
            final(self)@ == policy::answer_path(old(self)@, path@, access, reply.future),
            *final(updated) == (*old(updated) || reply.future !is Ask),
            git_result(result) == policy::answer_verdict(reply.now),
            (result is Ok) == reply.now,
    {
        match reply.future {
            Permission::Ask => {},
            _ => {
                *updated = true;
                if let Some(rule) = self.paths.get_mut(path) {
                    match access {
                        Access::Read => {
                            rule.read = reply.future;
                        },
                        Access::Write => {
                            rule.write = reply.future;
                        },
                    }
                }
            },
        }
        if reply.now {
            Ok(())
        } else {
            Err(GitError::InteractivelyDenied)
        }
    }
}

/// The decisions for one server.
#[derive(Debug)]
pub struct ServerRules {
    pub git: GitRules,
}

impl View for ServerRules {
    type V = policy::ServerView;

    open spec fn view(&self) -> policy::ServerView {
        policy::ServerView { git: self.git@ }
    }
}

impl Default for ServerRules {
    fn default() -> (rules: Self)
        ensures
            rules@ == (policy::ServerView { git: Map::empty() }),
    {
        ServerRules { git: GitRules::new() }
    }
}

impl Clone for ServerRules {
    fn clone(&self) -> (copy: Self)
        ensures
            copy@ == self@,
    {
        ServerRules { git: self.git.clone() }
    }
}

/// A client's name, and the decisions for it, by server address.
#[derive(Debug)]
pub struct ClientRules {
    pub name: String,
    pub servers: StrMap<ServerRules>,
}

impl View for ClientRules {
    type V = policy::ClientView;

    open spec fn view(&self) -> policy::ClientView {
        policy::ClientView { name: self.name@, servers: self.servers@ }
    }
}

impl Default for ClientRules {
    fn default() -> (rules: Self)
        ensures
            rules@ == policy::new_client(Seq::empty()),
            rules.name@ == Seq::<char>::empty(),
            rules.servers@ == Map::<Seq<char>, policy::ServerView>::empty(),
    {
        ClientRules { name: String::new(), servers: StrMap::new() }
    }
}

impl Clone for ClientRules {
    fn clone(&self) -> (copy: Self)
        ensures
            copy@ == self@,
    {
        ClientRules { name: self.name.clone(), servers: self.servers.clone() }
    }
}

impl ClientRules {
    /// A client for which nothing is decided.
    pub fn new(name: String) -> (rules: Self)
        ensures
            rules@ == policy::new_client(name@),
            rules.name@ == name@,
            rules.servers@ == Map::<Seq<char>, policy::ServerView>::empty(),
    {
        ClientRules { name, servers: StrMap::new() }
    }

    /// Judges a request of this client. `updated` is set where a server or a path is added.
    pub fn validate_exec(&mut self, updated: &mut bool, req: &RequestRulesExec) -> (step: ExecStep)
        ensures
            final(self)@ == policy::touch_client(old(self)@, req@, shell_words(req.data@)),
            *final(updated) == (*old(updated) || final(self)@ != old(self)@),
            step@ == policy::client_step(old(self)@, req@, shell_words(req.data@)),
    {
        let ghost before = self.servers@;
        let ghost touched = policy::touch_server(before, req.server_addr@);
        let ghost flag = *updated;
        let server: &mut ServerRules = self.servers.get_or_insert(
            &req.server_addr,
            ServerRules::default(),
            updated,
        );
        let ghost git = server.git@;
        if GitRules::matches_exec(&req.user, &req.data) {
            let step = server.git.validate_exec(updated, req);
            let ghost git_after = server.git@;
            proof {
                assert(touched[req.server_addr@].git == git);
                assert(self.servers@ == touched.insert(
                    req.server_addr@,
                    policy::ServerView { git: git_after },
                ));
                if before.contains_key(req.server_addr@) {
                    if git_after == git {
                        assert(self.servers@ =~= before);
                    } else {
                        assert(self.servers@[req.server_addr@].git != git);
                    }
                } else {
                    assert(self.servers@.contains_key(req.server_addr@));
                }
            }
            match step {
                GitStep::Done(Ok(())) => ExecStep::Done(Ok(())),
                GitStep::Done(Err(e)) => ExecStep::Done(Err(ExecError::GitRule(e))),
                GitStep::Ask { path, access } => ExecStep::Ask { path, access },
            }
        } else {
            proof {
                assert(self.servers@ =~= touched);
                assert(touched.contains_key(req.server_addr@));
            }
            ExecStep::Done(
                Err(
                    ExecError::NoPluginMatches { user: req.user.clone(), data: req.data.clone() },
                ),
            )
        }
    }

    /// Takes in the user's answer for a path of a server, and gives the verdict. `updated` is set
    /// where the answer decides for the times to come.
    pub fn answer(
        &mut self,
        updated: &mut bool,
        server_addr: &String,
        path: &String,
        access: Access,
        reply: &ReplyPermission,
    ) -> (result: Result<(), ExecError>)
        requires
            old(self)@.servers.contains_key(server_addr@),
            old(self)@.servers[server_addr@].git.contains_key(path@),
        ensures
            final(self)@ == policy::answer_client(
                old(self)@,
                server_addr@,
                path@,
                access,
                reply.future,
            ),
            *final(updated) == (*old(updated) || reply.future !is Ask),
            exec_result(result) == policy::git_rule(policy::answer_verdict(reply.now)),
            (result is Ok) == reply.now,
    {
        let mut result: Result<(), GitError> = Err(GitError::InteractivelyDenied);
        if let Some(server) = self.servers.get_mut(server_addr) {
            result = server.git.answer(updated, path, access, reply);
        }
        match result {
            Ok(()) => Ok(()),
            Err(e) => Err(ExecError::GitRule(e)),
        }
    }
}

/// What the rules wait for.
pub enum Waiting {
    Nothing,
    /// The name of the client that made this request.
    ClientName(RequestRulesExec),
    /// The user's answer for a path of a server; `updated` says whether the rules changed since
    /// the request came in.
    Permission {
        pk_openssh: String,
        server_addr: String,
        path: String,
        access: Access,
        updated: bool,
    },
}

impl View for Waiting {
    type V = policy::WaitingView;

    open spec fn view(&self) -> policy::WaitingView {
        match *self {
            Waiting::Nothing => policy::WaitingView::Nothing,
            Waiting::ClientName(req) => policy::WaitingView::ClientName(req@),
            Waiting::Permission { pk_openssh, server_addr, path, access, updated } => {
                policy::WaitingView::Permission {
                    pk_openssh: pk_openssh@,
                    server_addr: server_addr@,
                    path: path@,
                    access,
                    updated,
                }
            },
        }
    }
}

/// What is to be done next.
pub enum RulesAction {
    /// Ask the user for the name of a client.
    AskClientName(RequestClientName),
    /// Ask the user for a permission.
    AskPermission(RequestPermission),
    /// Save the rules where `save` says so, then answer the request.
    Reply { result: Result<(), ExecError>, save: bool },
}

impl View for RulesAction {
    type V = policy::RulesActionView;

    open spec fn view(&self) -> policy::RulesActionView {
        match *self {
            RulesAction::AskClientName(req) => policy::RulesActionView::AskClientName {
                pk_openssh: req.pk_openssh@,
            },
            RulesAction::AskPermission(req) => policy::RulesActionView::AskPermission {
                pk_openssh: req.pk_openssh@,
                action: req.action@,
            },
            RulesAction::Reply { result, save } => policy::RulesActionView::Reply {
                result: exec_result(result),
                save,
            },
        }
    }
}

/// What the user is asked to allow.
fn action_text(access: Access, path: &str) -> (text: String)
    ensures
        text@ == policy::action_text(access, path@),
{
    let mut text: String = match access {
        Access::Read => "read from ".to_owned(),
        Access::Write => "write to ".to_owned(),
    };
    text.append(path);
    text
}

/// The rules for all clients, by public key, and what they wait for.
pub struct Rules {
    clients: StrMap<ClientRules>,
    waiting: Waiting,
}

impl Rules {
    /// What the rules wait for fits what they know.
    #[verifier::type_invariant]
    spec fn inv(self) -> bool {
        policy::coherent(self.clients@, self.waiting@)
    }

    /// The decisions for all clients, by public key.
    pub closed spec fn clients(self) -> policy::Clients {
        self.clients@
    }

    /// What the rules wait for.
    pub closed spec fn waiting(self) -> policy::WaitingView {
        self.waiting@
    }

    /// The rules, waiting for nothing.
    pub fn new(clients: StrMap<ClientRules>) -> (rules: Self)
        ensures
            rules.clients() == clients@,
            rules.waiting() is Nothing,
    {
        Rules { clients, waiting: Waiting::Nothing }
    }

    /// The decisions, for saving.
    pub fn all_clients(&self) -> (clients: &StrMap<ClientRules>)
        ensures
            clients@ == self.clients(),
    {
        &self.clients
    }

    /// What the rules wait for.
    pub fn awaited(&self) -> (waiting: &Waiting)
        ensures
            waiting@ == self.waiting(),
    {
        &self.waiting
    }

    /// Judges the request of a known client.
    fn judge(&mut self, req: RequestRulesExec, updated: bool) -> (action: RulesAction)
        requires
            old(self).clients().contains_key(req.pk_openssh@),
        ensures
            (policy::RulesStep {
                clients: final(self).clients(),
                waiting: final(self).waiting(),
                action: action@,
            }) == policy::judge(old(self).clients(), req@, shell_words(req.data@), updated),
    {
        self.waiting = Waiting::Nothing;
        let mut clients: StrMap<ClientRules> = StrMap::new();
        std::mem::swap(&mut clients, &mut self.clients);
        let mut updated: bool = updated;
        let mut step: ExecStep = ExecStep::Done(Err(ExecError::NoClientName));
        if let Some(client) = clients.get_mut(&req.pk_openssh) {
            step = client.validate_exec(&mut updated, &req);
        }
        self.clients = clients;
        match step {
            ExecStep::Done(result) => RulesAction::Reply { result, save: updated },
            ExecStep::Ask { path, access } => {
                let action: String = action_text(access, &path);
                let pk_openssh: String = req.pk_openssh.clone();
                self.waiting = Waiting::Permission {
                    pk_openssh: req.pk_openssh,
                    server_addr: req.server_addr,
                    path,
                    access,
                    updated,
                };
                RulesAction::AskPermission(RequestPermission { pk_openssh, action })
            },
        }
    }

    /// A request comes in.
    pub fn handle_req_exec(&mut self, req: RequestRulesExec) -> (action: RulesAction)
        ensures
            (policy::RulesStep {
                clients: final(self).clients(),
                waiting: final(self).waiting(),
                action: action@,
            }) == policy::on_request(old(self).clients(), req@, shell_words(req.data@)),
            (action is AskClientName) == !old(self).clients().contains_key(req.pk_openssh@),
            action matches RulesAction::Reply { result: Ok(()), .. } ==> req.user@ == "git"@ && (
            "git-upload-pack"@.is_prefix_of(req.data@) || "git-receive-pack"@.is_prefix_of(
                req.data@,
            )),
    {
        if self.clients.get(&req.pk_openssh).is_some() {
            self.judge(req, false)
        } else {
            let pk_openssh: String = req.pk_openssh.clone();
            self.waiting = Waiting::ClientName(req);
            RulesAction::AskClientName(RequestClientName { pk_openssh })
        }
    }

    /// The user has named the client whose request waits for its name, or has not.
    pub fn client_named(&mut self, reply: ReplyClientName) -> (action: RulesAction)
        requires
            old(self).waiting() is ClientName,
        ensures
            (policy::RulesStep {
                clients: final(self).clients(),
                waiting: final(self).waiting(),
                action: action@,
            }) == policy::on_client_name(
                old(self).clients(),
                old(self).waiting()->ClientName_0,
                shell_words(old(self).waiting()->ClientName_0.data),
                match reply.name {
                    Some(name) => Some(name@),
                    None => None,
                },
            ),
    {
        let mut waiting: Waiting = Waiting::Nothing;
        std::mem::swap(&mut waiting, &mut self.waiting);
        match (waiting, reply.name) {
            (Waiting::ClientName(req), Some(name)) => {
                let mut clients: StrMap<ClientRules> = StrMap::new();
                std::mem::swap(&mut clients, &mut self.clients);
                clients.insert(req.pk_openssh.clone(), ClientRules::new(name));
                self.clients = clients;
                self.judge(req, true)
            },
            _ => RulesAction::Reply { result: Err(ExecError::NoClientName), save: false },
        }
    }

    /// The user has answered for the path that the rules wait for.
    pub fn permission_answered(&mut self, reply: ReplyPermission) -> (action: RulesAction)
        requires
            old(self).waiting() is Permission,
        ensures
            (policy::RulesStep {
                clients: final(self).clients(),
                waiting: final(self).waiting(),
                action: action@,
            }) == policy::on_permission(
                old(self).clients(),
                old(self).waiting()->Permission_pk_openssh,
                old(self).waiting()->Permission_server_addr,
                old(self).waiting()->Permission_path,
                old(self).waiting()->Permission_access,
                old(self).waiting()->Permission_updated,
                reply.now,
                reply.future,
            ),
            action matches RulesAction::Reply { result, .. } && (result is Ok) == reply.now,
    {
        proof {
            use_type_invariant(&*self);
        }
        let mut waiting: Waiting = Waiting::Nothing;
        std::mem::swap(&mut waiting, &mut self.waiting);
        let mut result: Result<(), ExecError> = Err(ExecError::NoClientName);
        let mut save: bool = false;
        if let Waiting::Permission { pk_openssh, server_addr, path, access, updated } = waiting {
            save = updated;
            let mut clients: StrMap<ClientRules> = StrMap::new();
            std::mem::swap(&mut clients, &mut self.clients);
            if let Some(client) = clients.get_mut(&pk_openssh) {
                result = client.answer(&mut save, &server_addr, &path, access, &reply);
            }
            self.clients = clients;
        }
        RulesAction::Reply { result, save }
    }
}

} // verus!
