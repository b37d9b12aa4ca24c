//! What holds of the rules as a whole.

use super::policy;
use super::policy::{
    Access, ClientView, Clients, ExecErrorView, ExecView, GitAccessRule, GitErrorView, Paths,
    RulesActionView, RulesStep, ServerView, WaitingView,
};
use super::{
    ClientRules, ExecError, ExecStep, GitError, GitRules, GitStep, RequestRulesExec, RulesAction,
    ServerRules, Waiting,
};
use crate::model::Permission;
use crate::rules;
use vstd::prelude::*;

verus! {

/// Every decision of `before` stands in `after`.
pub open spec fn rule_grows(before: GitAccessRule, after: GitAccessRule) -> bool {
    &&& before.read is Ask || after.read == before.read
    &&& before.write is Ask || after.write == before.write
}

/// Every path of `before` is in `after`, with its decisions.
pub open spec fn paths_grow(before: Paths, after: Paths) -> bool {
    forall|path: Seq<char>| #[trigger]
        before.contains_key(path) ==> after.contains_key(path) && rule_grows(
            before[path],
            after[path],
        )
}

/// The client has the same name, and every server of `before` is in `after`, with its decisions.
pub open spec fn client_grows(before: ClientView, after: ClientView) -> bool {
    &&& before.name == after.name
    &&& forall|addr: Seq<char>| #[trigger]
        before.servers.contains_key(addr) ==> after.servers.contains_key(addr) && paths_grow(
            before.servers[addr].git,
            after.servers[addr].git,
        )
}

/// Every client of `before` is in `after`, with its decisions.
pub open spec fn grows(before: Clients, after: Clients) -> bool {
    forall|pk: Seq<char>| #[trigger]
        before.contains_key(pk) ==> after.contains_key(pk) && client_grows(before[pk], after[pk])
}

/// A request with the user's answers: `name` where the client's name is asked for, `now` and
/// `future` where a permission is.
pub open spec fn conversation(
    clients: Clients,
    req: ExecView,
    words: Option<Seq<Seq<char>>>,
    name: Option<Seq<char>>,
    now: bool,
    future: Permission,
) -> RulesStep {
    let first = policy::on_request(clients, req, words);
    let second = match first.waiting {
        WaitingView::ClientName(asked) => policy::on_client_name(first.clients, asked, words, name),
        _ => first,
    };
    match second.waiting {
        WaitingView::Permission { pk_openssh, server_addr, path, access, updated } => policy::on_permission(
            second.clients,
            pk_openssh,
            server_addr,
            path,
            access,
            updated,
            now,
            future,
        ),
        _ => second,
    }
}

/// The user name and the first word with which git comes.
pub open spec fn comes_as_git(req: ExecView) -> bool {
    &&& req.user == "git"@
    &&& "git-upload-pack"@.is_prefix_of(req.data) || "git-receive-pack"@.is_prefix_of(req.data)
}

/// `req` asks for `access` to `path`, and `words` are the words of its command.
pub open spec fn asks_for(
    req: ExecView,
    words: Option<Seq<Seq<char>>>,
    access: Access,
    path: Seq<char>,
) -> bool {
    &&& comes_as_git(req)
    &&& words is Some
    &&& words->0.len() >= 2
    &&& words->0[0] == match access {
        Access::Read => "git-upload-pack"@,
        Access::Write => "git-receive-pack"@,
    }
    &&& words->0[1] == path
}

/// `path` is the path that a command of git names, and `words` are the words of the command.
pub open spec fn is_path_of(
    req: ExecView,
    words: Option<Seq<Seq<char>>>,
    path: Seq<char>,
) -> bool {
    &&& comes_as_git(req)
    &&& words is Some
    &&& words->0.len() >= 2
    &&& words->0[1] == path
}

/// The decision that the rules hold about an access, where they know the path.
pub open spec fn decision(
    clients: Clients,
    pk: Seq<char>,
    addr: Seq<char>,
    path: Seq<char>,
    access: Access,
) -> Option<Permission> {
    if clients.contains_key(pk) && clients[pk].servers.contains_key(addr)
        && clients[pk].servers[addr].git.contains_key(path) {
        Some(
            match access {
                Access::Read => clients[pk].servers[addr].git[path].read,
                Access::Write => clients[pk].servers[addr].git[path].write,
            },
        )
    } else {
        None
    }
}

/// Whether an access is allowed: the decision about it is yes, or there is none and the user, being
/// asked, allows it now.
pub open spec fn allowed(decided: Option<Permission>, now: bool) -> bool {
    ||| decided == Some(Permission::Yes)
    ||| now && (decided is None || decided == Some(Permission::Ask))
}

/// The answer to a request, and the rules as they stand then.
pub open spec fn replies(
    step: RulesStep,
    clients: Clients,
    result: Result<(), ExecErrorView>,
    save: bool,
) -> bool {
    step == RulesStep {
        clients,
        waiting: WaitingView::Nothing,
        action: RulesActionView::Reply { result, save },
    }
}

/// The verdict that a decision gives.
pub open spec fn decided_verdict(
    access: Access,
    permission: Permission,
) -> Result<(), ExecErrorView> {
    if permission is Yes {
        Ok(())
    } else {
        Err(
            ExecErrorView::GitRule(
                match access {
                    Access::Read => GitErrorView::ReadNotAllowed,
                    Access::Write => GitErrorView::WriteNotAllowed,
                },
            ),
        )
    }
}

/// The two commands of git are not the same.
proof fn lemma_two_commands()
    ensures
        "git-upload-pack"@ != "git-receive-pack"@,
{
    reveal_strlit("git-upload-pack");
    reveal_strlit("git-receive-pack");
    assert("git-upload-pack"@.len() != "git-receive-pack"@.len());
}

/// A decision is obeyed: the request is answered by it, nobody is asked, and the rules neither
/// change nor need saving.
pub proof fn law_decision_is_obeyed(
    clients: Clients,
    req: ExecView,
    words: Option<Seq<Seq<char>>>,
    access: Access,
    path: Seq<char>,
    permission: Permission,
)
    requires
        asks_for(req, words, access, path),
        decision(clients, req.pk_openssh, req.server_addr, path, access) == Some(permission),
        permission !is Ask,
    ensures
        replies(
            policy::on_request(clients, req, words),
            clients,
            decided_verdict(access, permission),
            false,
        ),
{
    lemma_two_commands();
    let client = clients[req.pk_openssh];
    assert(policy::touch_client(client, req, words).servers =~= client.servers);
    assert(clients.insert(req.pk_openssh, client) =~= clients);
}

/// What the user decides for the times to come is remembered: after "allow always" every request
/// for the same access is approved, after "deny always" every one is refused, and the user is not
/// asked again.
pub proof fn law_decision_is_remembered(
    clients: Clients,
    pk: Seq<char>,
    addr: Seq<char>,
    path: Seq<char>,
    access: Access,
    updated: bool,
    now: bool,
    future: Permission,
    req: ExecView,
    words: Option<Seq<Seq<char>>>,
)
    requires
        policy::coherent(
            clients,
            WaitingView::Permission {
                pk_openssh: pk,
                server_addr: addr,
                path,
                access,
                updated,
            },
        ),
        future !is Ask,
        req.pk_openssh == pk,
        req.server_addr == addr,
        asks_for(req, words, access, path),
    ensures
        ({
            let after = policy::on_permission(clients, pk, addr, path, access, updated, now, future).clients;
            replies(
                policy::on_request(after, req, words),
                after,
                decided_verdict(access, future),
                false,
            )
        }),
{
    let after = policy::on_permission(clients, pk, addr, path, access, updated, now, future).clients;
    law_decision_is_obeyed(after, req, words, access, path, future);
}

/// "Allow once" decides nothing: the rules stay as they are, and the same request is asked about
/// again.
pub proof fn law_once_asks_again(
    clients: Clients,
    pk: Seq<char>,
    addr: Seq<char>,
    path: Seq<char>,
    access: Access,
    updated: bool,
    now: bool,
    req: ExecView,
    words: Option<Seq<Seq<char>>>,
)
    requires
        policy::coherent(
            clients,
            WaitingView::Permission {
                pk_openssh: pk,
                server_addr: addr,
                path,
                access,
                updated,
            },
        ),
        req.pk_openssh == pk,
        req.server_addr == addr,
        asks_for(req, words, access, path),
    ensures
        ({
            let after = policy::on_permission(
                clients,
                pk,
                addr,
                path,
                access,
                updated,
                now,
                Permission::Ask,
            ).clients;
            &&& after == clients
            &&& policy::on_request(after, req, words).action == RulesActionView::AskPermission {
                pk_openssh: pk,
                action: match access {
                    Access::Read => "read from "@ + path,
                    Access::Write => "write to "@ + path,
                },
            }
        }),
{
    lemma_two_commands();
    let client = clients[pk];
    assert(client.servers.insert(addr, client.servers[addr]) =~= client.servers);
    assert(policy::answer_client(client, addr, path, access, Permission::Ask) == client);
    assert(clients.insert(pk, client) =~= clients);
}

/// A request is approved only where git asks for an access, and the rules allow it or the user
/// does, being asked.
pub proof fn law_approved_only_if_allowed(
    clients: Clients,
    req: ExecView,
    words: Option<Seq<Seq<char>>>,
    name: Option<Seq<char>>,
    now: bool,
    future: Permission,
)
    requires
        conversation(clients, req, words, name, now, future).action matches
            RulesActionView::Reply { result, .. } && result is Ok,
    ensures
        comes_as_git(req),
        exists|access: Access, path: Seq<char>| #[trigger]
            asks_for(req, words, access, path) && allowed(
                decision(clients, req.pk_openssh, req.server_addr, path, access),
                now,
            ),
{
    lemma_two_commands();
    let access = policy::command_access(words->0[0])->0;
    let path = words->0[1];
    assert(asks_for(req, words, access, path));
}

/// The rules only grow: no request and no answer takes away a client, a server, a path or a
/// decision.
pub proof fn law_rules_only_grow(
    clients: Clients,
    req: ExecView,
    words: Option<Seq<Seq<char>>>,
    name: Option<Seq<char>>,
    now: bool,
    future: Permission,
)
    ensures
        grows(clients, policy::on_request(clients, req, words).clients),
        grows(clients, conversation(clients, req, words, name, now, future).clients),
{
}

/// Every request is answered after at most two questions, and the rules are saved exactly where
/// they have changed since it came in.
pub proof fn law_saved_exactly_when_changed(
    clients: Clients,
    req: ExecView,
    words: Option<Seq<Seq<char>>>,
    name: Option<Seq<char>>,
    now: bool,
    future: Permission,
)
    ensures
        ({
            let last = conversation(clients, req, words, name, now, future);
            &&& last.waiting is Nothing
            &&& last.action matches RulesActionView::Reply { save, .. } && save == (last.clients
                != clients)
        }),
{
    let pk = req.pk_openssh;
    let addr = req.server_addr;
    let last = conversation(clients, req, words, name, now, future);
    if clients.contains_key(pk) {
        let before = clients[pk];
        let after = policy::touch_client(before, req, words);
        if after == before {
            assert(clients.insert(pk, after) =~= clients);
        } else {
            assert(clients.insert(pk, after)[pk] != clients[pk]);
        }
        match policy::client_step(before, req, words) {
            policy::ExecStepView::Done(_) => {},
            policy::ExecStepView::Ask { path, access } => {
                if future is Ask {
                    assert(after.servers.insert(addr, after.servers[addr]) =~= after.servers);
                    assert(policy::answer_client(after, addr, path, access, future) == after);
                    assert(last.clients =~= clients.insert(pk, after));
                } else {
                    assert(decision(last.clients, pk, addr, path, access) == Some(future));
                    assert(decision(clients, pk, addr, path, access) != Some(future));
                }
            },
        }
    } else if name is Some {
        assert(last.clients.contains_key(pk));
    }
}

/// A request touches what it is about and nothing else: no other client and no other server; and
/// no decision but the one that is asked for, except that the path that the command names becomes
/// known, undecided.
pub proof fn law_others_are_untouched(
    clients: Clients,
    req: ExecView,
    words: Option<Seq<Seq<char>>>,
    name: Option<Seq<char>>,
    now: bool,
    future: Permission,
    pk: Seq<char>,
    addr: Seq<char>,
    path: Seq<char>,
    access: Access,
)
    ensures
        ({
            let after = conversation(clients, req, words, name, now, future).clients;
            let own = pk == req.pk_openssh && addr == req.server_addr;
            let old_decision = decision(clients, pk, addr, path, access);
            let new_decision = decision(after, pk, addr, path, access);
            &&& pk != req.pk_openssh ==> after.contains_key(pk) == clients.contains_key(pk)
                && after[pk] == clients[pk]
            &&& clients.contains_key(pk) && addr != req.server_addr ==> {
                &&& after.contains_key(pk)
                &&& after[pk].servers.contains_key(addr) == clients[pk].servers.contains_key(addr)
                &&& after[pk].servers[addr] == clients[pk].servers[addr]
            }
            &&& new_decision != old_decision ==> own && {
                ||| asks_for(req, words, access, path)
                ||| {
                    &&& is_path_of(req, words, path)
                    &&& old_decision is None
                    &&& new_decision == Some(Permission::Ask)
                }
            }
        }),
{
}

/// Only git is let through: a request of any user but `git`, and any command that does not begin
/// with one of git's two, is refused whatever the rules hold and whatever the user answers, and the
/// user is not asked for a permission. The refusal names the user and the command, or says that the
/// client has no name. Every other request is judged by the rules for git.
pub proof fn law_only_git_is_let_through(
    clients: Clients,
    req: ExecView,
    words: Option<Seq<Seq<char>>>,
    name: Option<Seq<char>>,
    now: bool,
    future: Permission,
)
    ensures
        ({
            let last = conversation(clients, req, words, name, now, future);
            let git = req.user == "git"@ && ("git-upload-pack"@.is_prefix_of(req.data)
                || "git-receive-pack"@.is_prefix_of(req.data));
            &&& last.action matches RulesActionView::Reply { result, .. }
            &&& !git ==> result == if clients.contains_key(req.pk_openssh) || name is Some {
                Err::<(), ExecErrorView>(
                    ExecErrorView::NoPluginMatches { user: req.user, data: req.data },
                )
            } else {
                Err(ExecErrorView::NoClientName)
            }
            &&& !git ==> policy::on_request(clients, req, words).action !is AskPermission
            &&& git ==> (result matches Err(e) ==> e !is NoPluginMatches)
        }),
{
}

/// A request is approved exactly where git asks for an access, the client is known or the user
/// names it, and the access is allowed.
pub proof fn law_approved_exactly_if_allowed(
    clients: Clients,
    req: ExecView,
    words: Option<Seq<Seq<char>>>,
    name: Option<Seq<char>>,
    now: bool,
    future: Permission,
)
    ensures
        ({
            let path = words->0[1];
            let reading = decision(clients, req.pk_openssh, req.server_addr, path, Access::Read);
            let writing = decision(clients, req.pk_openssh, req.server_addr, path, Access::Write);
            &&& conversation(clients, req, words, name, now, future).action matches
                RulesActionView::Reply { result, .. }
            &&& result is Ok <==> {
                &&& clients.contains_key(req.pk_openssh) || name is Some
                &&& {
                    ||| asks_for(req, words, Access::Read, path) && allowed(reading, now)
                    ||| asks_for(req, words, Access::Write, path) && allowed(writing, now)
                }
            }
        }),
{
    lemma_two_commands();
}

/// A refusal says why: that the command line cannot be split, that a word is missing, that the
/// command is not one of git's, that the rules do not allow the access, or that the user did not.
pub proof fn law_refusals_say_why(
    clients: Clients,
    req: ExecView,
    words: Option<Seq<Seq<char>>>,
    name: Option<Seq<char>>,
    now: bool,
    future: Permission,
)
    requires
        comes_as_git(req),
        clients.contains_key(req.pk_openssh) || name is Some,
    ensures
        conversation(clients, req, words, name, now, future).action matches RulesActionView::Reply {
            result,
            ..
        } && match result {
            Ok(()) => words is Some && words->0.len() >= 2,
            Err(ExecErrorView::GitRule(e)) => {
                let path = words->0[1];
                let reading = decision(clients, req.pk_openssh, req.server_addr, path, Access::Read);
                let writing = decision(
                    clients,
                    req.pk_openssh,
                    req.server_addr,
                    path,
                    Access::Write,
                );
                match e {
                    GitErrorView::ParsingCommand => words is None,
                    GitErrorView::MissingArg0 => words matches Some(w) && w.len() == 0,
                    GitErrorView::MissingArg1 => words matches Some(w) && w.len() == 1,
                    GitErrorView::InvalidCommand(command) => {
                        &&& words matches Some(w)
                        &&& w.len() >= 2
                        &&& command == w[0]
                        &&& command != "git-upload-pack"@
                        &&& command != "git-receive-pack"@
                    },
                    GitErrorView::ReadNotAllowed => asks_for(req, words, Access::Read, path)
                        && reading == Some(Permission::No),
                    GitErrorView::WriteNotAllowed => asks_for(req, words, Access::Write, path)
                        && writing == Some(Permission::No),
                    GitErrorView::InteractivelyDenied => !now && {
                        ||| asks_for(req, words, Access::Read, path) && (reading is None || reading
                            == Some(Permission::Ask))
                        ||| asks_for(req, words, Access::Write, path) && (writing is None || writing
                            == Some(Permission::Ask))
                    },
                }
            },
            Err(_) => false,
        },
{
    lemma_two_commands();
}

/// What the rules hold after a request with the user's answers. A client is known that was known
/// before, or that made the request and was named; it keeps its name, or has the one that it was
/// given. A server is known for a client that was known before, or that the request is about. And a
/// decision is the one that stood, except: where the request asks for an access that is undecided,
/// the user's decision for the times to come; and where the command names a path that was not known,
/// none yet.
pub proof fn law_what_the_rules_hold_after(
    clients: Clients,
    req: ExecView,
    words: Option<Seq<Seq<char>>>,
    name: Option<Seq<char>>,
    now: bool,
    future: Permission,
    pk: Seq<char>,
    addr: Seq<char>,
    path: Seq<char>,
    access: Access,
)
    ensures
        ({
            let after = conversation(clients, req, words, name, now, future).clients;
            let heard = clients.contains_key(req.pk_openssh) || name is Some;
            let before = decision(clients, pk, addr, path, access);
            let about = heard && pk == req.pk_openssh && addr == req.server_addr;
            &&& after.contains_key(pk) == (clients.contains_key(pk) || (heard && pk
                == req.pk_openssh))
            &&& clients.contains_key(pk) ==> after[pk].name == clients[pk].name
            &&& !clients.contains_key(pk) && after.contains_key(pk) ==> name == Some(after[pk].name)
            &&& after.contains_key(pk) ==> after[pk].servers.contains_key(addr) == (about || (
            clients.contains_key(pk) && clients[pk].servers.contains_key(addr)))
            &&& decision(after, pk, addr, path, access) == if !about {
                before
            } else if asks_for(req, words, access, path) && (before is None || before == Some(
                Permission::Ask,
            )) {
                Some(future)
            } else if is_path_of(req, words, path) && before is None {
                Some(Permission::Ask)
            } else {
                before
            }
        }),
{
    lemma_two_commands();
}

/// The user is asked what has to be asked, and nothing else. A request of an unknown client leads to
/// the question for its name, with its key, and leaves the rules as they are. A request of a known
/// client leads to the question for a permission exactly where git asks for an access that is
/// undecided; the question names the client's key, what is to be done and the path, and the rules
/// wait for the answer about that client, server, path and access.
pub proof fn law_asks_what_is_undecided(
    clients: Clients,
    req: ExecView,
    words: Option<Seq<Seq<char>>>,
)
    ensures
        ({
            let step = policy::on_request(clients, req, words);
            let path = words->0[1];
            let undecided = |access: Access|
                {
                    let decided = decision(clients, req.pk_openssh, req.server_addr, path, access);
                    &&& asks_for(req, words, access, path)
                    &&& decided is None || decided == Some(Permission::Ask)
                };
            &&& !clients.contains_key(req.pk_openssh) ==> {
                &&& step.clients == clients
                &&& step.waiting == WaitingView::ClientName(req)
                &&& step.action == (RulesActionView::AskClientName { pk_openssh: req.pk_openssh })
            }
            &&& clients.contains_key(req.pk_openssh) ==> {
                &&& step.action !is AskClientName
                &&& step.action is AskPermission <==> undecided(Access::Read) || undecided(
                    Access::Write,
                )
                &&& step.action is AskPermission <==> step.waiting is Permission
                &&& step.action is Reply <==> step.waiting is Nothing
                &&& undecided(Access::Read) ==> step.action == (RulesActionView::AskPermission {
                    pk_openssh: req.pk_openssh,
                    action: "read from "@ + path,
                })
                &&& undecided(Access::Write) ==> step.action == (RulesActionView::AskPermission {
                    pk_openssh: req.pk_openssh,
                    action: "write to "@ + path,
                })
                &&& step.waiting matches WaitingView::Permission {
                    pk_openssh,
                    server_addr,
                    path: asked,
                    access,
                    updated,
                } ==> {
                    &&& pk_openssh == req.pk_openssh
                    &&& server_addr == req.server_addr
                    &&& asked == path
                    &&& undecided(access)
                    &&& updated == (step.clients != clients)
                }
            }
        }),
{
    lemma_two_commands();
    if clients.contains_key(req.pk_openssh) {
        let before = clients[req.pk_openssh];
        let after = policy::touch_client(before, req, words);
        if after == before {
            assert(clients.insert(req.pk_openssh, after) =~= clients);
        } else {
            assert(clients.insert(req.pk_openssh, after)[req.pk_openssh] != before);
        }
    }
}

/// A request alone decides nothing: while the user is asked, and where nobody is, the rules hold
/// every decision that stood; the path that a known client's command names is known then, undecided
/// where it was not known before.
pub proof fn law_a_request_decides_nothing(
    clients: Clients,
    req: ExecView,
    words: Option<Seq<Seq<char>>>,
    pk: Seq<char>,
    addr: Seq<char>,
    path: Seq<char>,
    access: Access,
)
    ensures
        ({
            let after = policy::on_request(clients, req, words).clients;
            let before = decision(clients, pk, addr, path, access);
            let about = clients.contains_key(req.pk_openssh) && pk == req.pk_openssh && addr
                == req.server_addr;
            &&& after.contains_key(pk) == clients.contains_key(pk)
            &&& clients.contains_key(pk) ==> after[pk].name == clients[pk].name
            &&& clients.contains_key(pk) ==> after[pk].servers.contains_key(addr) == (about
                || clients[pk].servers.contains_key(addr))
            &&& decision(after, pk, addr, path, access) == if about && is_path_of(req, words, path)
                && before is None {
                Some(Permission::Ask)
            } else {
                before
            }
        }),
{
}

/// To name a client is to make it known, with this name and nothing decided: the request then goes
/// on as that of a client that was known so, but the rules count as changed. Not to name it is to
/// refuse the request, and leaves the rules as they are.
pub proof fn law_naming_makes_known(
    clients: Clients,
    req: ExecView,
    words: Option<Seq<Seq<char>>>,
    name: Seq<char>,
)
    ensures
        ({
            let client = ClientView { name, servers: Map::<Seq<char>, ServerView>::empty() };
            let known = policy::on_request(clients.insert(req.pk_openssh, client), req, words);
            let named = policy::on_client_name(clients, req, words, Some(name));
            &&& named.clients == known.clients
            &&& match (known.action, named.action) {
                (
                    RulesActionView::Reply { result: expected, .. },
                    RulesActionView::Reply { result, save },
                ) => save && result == expected,
                (
                    RulesActionView::AskPermission { pk_openssh: pk, action: expected },
                    RulesActionView::AskPermission { pk_openssh, action },
                ) => pk_openssh == pk && action == expected,
                _ => false,
            }
            &&& match (known.waiting, named.waiting) {
                (WaitingView::Nothing, WaitingView::Nothing) => true,
                (
                    WaitingView::Permission {
                        pk_openssh: pk,
                        server_addr: addr,
                        path: on,
                        access: to,
                        ..
                    },
                    WaitingView::Permission { pk_openssh, server_addr, path, access, updated },
                ) => {
                    &&& pk_openssh == pk
                    &&& server_addr == addr
                    &&& path == on
                    &&& access == to
                    &&& updated
                },
                _ => false,
            }
        }),
        policy::on_client_name(clients, req, words, None) == (RulesStep {
            clients,
            waiting: WaitingView::Nothing,
            action: RulesActionView::Reply {
                result: Err(ExecErrorView::NoClientName),
                save: false,
            },
        }),
{
}

/// The user's answer is taken as it is given: the request is approved exactly where the user allows
/// it now; what the user decides for the times to come is held for the access that was asked about,
/// and nothing else changes; and the rules are saved where they changed before or the user decided.
pub proof fn law_answer_is_taken_as_given(
    clients: Clients,
    asked_pk: Seq<char>,
    asked_addr: Seq<char>,
    asked_path: Seq<char>,
    asked_access: Access,
    updated: bool,
    now: bool,
    future: Permission,
    pk: Seq<char>,
    addr: Seq<char>,
    path: Seq<char>,
    access: Access,
)
    requires
        decision(clients, asked_pk, asked_addr, asked_path, asked_access) is Some,
    ensures
        ({
            let step = policy::on_permission(
                clients,
                asked_pk,
                asked_addr,
                asked_path,
                asked_access,
                updated,
                now,
                future,
            );
            &&& step.waiting is Nothing
            &&& step.action == (RulesActionView::Reply {
                result: if now {
                    Ok(())
                } else {
                    Err(ExecErrorView::GitRule(GitErrorView::InteractivelyDenied))
                },
                save: updated || future != Permission::Ask,
            })
            &&& step.clients.contains_key(pk) == clients.contains_key(pk)
            &&& step.clients[pk].name == clients[pk].name || !clients.contains_key(pk)
            &&& clients.contains_key(pk) ==> step.clients[pk].servers.contains_key(addr)
                == clients[pk].servers.contains_key(addr)
            &&& decision(step.clients, pk, addr, path, access) == if pk == asked_pk && addr
                == asked_addr && path == asked_path && access == asked_access && future
                != Permission::Ask {
                Some(future)
            } else {
                decision(clients, pk, addr, path, access)
            }
        }),
{
}

/// Requests, refusals, questions and answers read, over plain sequences, as what they are.
pub proof fn law_views_of_requests_and_actions(
    req: RequestRulesExec,
    error: ExecError,
    git_error: GitError,
    action: RulesAction,
    waiting: Waiting,
)
    ensures
        req@.pk_openssh == req.pk_openssh@,
        req@.server_addr == req.server_addr@,
        req@.user == req.user@,
        req@.data == req.data@,
        match git_error {
            GitError::ParsingCommand => git_error@ is ParsingCommand,
            GitError::MissingArg0 => git_error@ is MissingArg0,
            GitError::MissingArg1 => git_error@ is MissingArg1,
            GitError::ReadNotAllowed => git_error@ is ReadNotAllowed,
            GitError::WriteNotAllowed => git_error@ is WriteNotAllowed,
            GitError::InteractivelyDenied => git_error@ is InteractivelyDenied,
            GitError::InvalidCommand(command) => git_error@ == GitErrorView::InvalidCommand(
                command@,
            ),
        },
        match error {
            ExecError::NoClientName => error@ is NoClientName,
            ExecError::NoPluginMatches { user, data } => error@ == (ExecErrorView::NoPluginMatches {
                user: user@,
                data: data@,
            }),
            ExecError::GitRule(e) => error@ == ExecErrorView::GitRule(e@),
        },
        match action {
            RulesAction::AskClientName(question) => action@ == (RulesActionView::AskClientName {
                pk_openssh: question.pk_openssh@,
            }),
            RulesAction::AskPermission(question) => action@ == (RulesActionView::AskPermission {
                pk_openssh: question.pk_openssh@,
                action: question.action@,
            }),
            RulesAction::Reply { result: Ok(()), save } => action@ == (RulesActionView::Reply {
                result: Ok(()),
                save,
            }),
            RulesAction::Reply { result: Err(e), save } => action@ == (RulesActionView::Reply {
                result: Err(e@),
                save,
            }),
        },
        match waiting {
            Waiting::Nothing => waiting@ is Nothing,
            Waiting::ClientName(asked) => waiting@ == WaitingView::ClientName(asked@),
            Waiting::Permission { pk_openssh, server_addr, path, access, updated } => waiting@ == (
            WaitingView::Permission {
                pk_openssh: pk_openssh@,
                server_addr: server_addr@,
                path: path@,
                access,
                updated,
            }),
        },
{
}

/// Verdicts, decisions and the words of a command read, over plain sequences, as what they are.
pub proof fn law_views_of_verdicts_and_decisions(
    git_step: GitStep,
    exec_step: ExecStep,
    rule: GitAccessRule,
    git: GitRules,
    server: ServerRules,
    client: ClientRules,
    words: Vec<String>,
    i: int,
)
    ensures
        match git_step {
            GitStep::Done(Ok(())) => git_step@ == policy::GitStepView::Done(Ok(())),
            GitStep::Done(Err(e)) => git_step@ == policy::GitStepView::Done(Err(e@)),
            GitStep::Ask { path, access } => git_step@ == (policy::GitStepView::Ask {
                path: path@,
                access,
            }),
        },
        match exec_step {
            ExecStep::Done(Ok(())) => exec_step@ == policy::ExecStepView::Done(Ok(())),
            ExecStep::Done(Err(e)) => exec_step@ == policy::ExecStepView::Done(Err(e@)),
            ExecStep::Ask { path, access } => exec_step@ == (policy::ExecStepView::Ask {
                path: path@,
                access,
            }),
        },
        rule@ == rule,
        git@ == git.paths@,
        server@.git == server.git.paths@,
        client@.name == client.name@,
        client@.servers == client.servers@,
        rules::words_view(None) is None,
        rules::words_view(Some(words)) matches Some(texts) && texts.len() == words@.len() && (0 <= i
            < words@.len() ==> texts[i] == words@[i]@),
{
}

} // verus!
