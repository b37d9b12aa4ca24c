use ssh_git_fw::model::Permission;
use ssh_git_fw::rules::policy::{Access, GitAccessRule};
use ssh_git_fw::rules::{
    ClientRules, ExecError, ExecStep, GitError, GitRules, GitStep, RequestRulesExec, Rules,
    RulesAction, ServerRules, Waiting,
};
use ssh_git_fw::str_map::StrMap;
use ssh_git_fw::ui::messages::{ReplyClientName, ReplyPermission};

const PK: &str = "ssh-ed25519 AAAA client";
const SERVER: &str = "git.example.org:22";

fn request(user: &str, data: &str) -> RequestRulesExec {
    RequestRulesExec {
        pk_openssh: PK.to_string(),
        server_addr: SERVER.to_string(),
        user: user.to_string(),
        data: data.to_string(),
    }
}

fn words(list: &[&str]) -> Option<Vec<String>> {
    Some(list.iter().map(|w| w.to_string()).collect())
}

fn rules_with(path: &str, read: Permission, write: Permission) -> Rules {
    let mut git = GitRules::new();
    git.paths.insert(path.to_string(), GitAccessRule { read, write });
    let mut client = ClientRules::new("laptop".to_string());
    client.servers.insert(SERVER.to_string(), ServerRules { git });
    let mut clients = StrMap::new();
    clients.insert(PK.to_string(), client);
    Rules::new(clients)
}

fn known_client() -> Rules {
    let mut clients = StrMap::new();
    clients.insert(PK.to_string(), ClientRules::new("laptop".to_string()));
    Rules::new(clients)
}

fn decision(rules: &Rules, path: &str) -> Option<GitAccessRule> {
    let client = rules.all_clients().get(&PK.to_string())?;
    let server = client.servers.get(&SERVER.to_string())?;
    server.git.paths.get(&path.to_string()).copied()
}

fn reply(now: bool, future: Permission) -> ReplyPermission {
    ReplyPermission { now, future }
}

fn verdict(action: RulesAction) -> (Result<(), ExecError>, bool) {
    match action {
        RulesAction::Reply { result, save } => (result, save),
        _ => panic!("a verdict was expected"),
    }
}

fn question(action: RulesAction) -> String {
    match action {
        RulesAction::AskPermission(req) => {
            assert_eq!(req.pk_openssh, PK);
            req.action
        }
        _ => panic!("a question was expected"),
    }
}

#[test]
fn git_rules_match_the_two_commands_of_the_user_git() {
    assert!(GitRules::matches_exec("git", "git-upload-pack '/a.git'"));
    assert!(GitRules::matches_exec("git", "git-receive-pack '/a.git'"));
    assert!(GitRules::matches_exec("git", "git-upload-packs"));
    assert!(!GitRules::matches_exec("root", "git-upload-pack '/a.git'"));
    assert!(!GitRules::matches_exec("git", "ls"));
    assert!(!GitRules::matches_exec("git", "git-upload-pac"));
    assert!(!GitRules::matches_exec("git", ""));
    assert!(!GitRules::matches_exec("git", " git-upload-pack"));
}

#[test]
fn words_that_make_no_command_are_refused() {
    let mut git = GitRules::new();
    let mut updated = false;
    assert!(matches!(
        git.validate_words(&mut updated, &None),
        GitStep::Done(Err(GitError::ParsingCommand))
    ));
    assert!(matches!(
        git.validate_words(&mut updated, &words(&[])),
        GitStep::Done(Err(GitError::MissingArg0))
    ));
    assert!(matches!(
        git.validate_words(&mut updated, &words(&["git-upload-pack"])),
        GitStep::Done(Err(GitError::MissingArg1))
    ));
    assert!(!updated);
    assert_eq!(git.paths.len(), 0);
}

#[test]
fn an_invalid_command_is_refused_and_its_path_becomes_known() {
    let mut git = GitRules::new();
    let mut updated = false;
    match git.validate_words(&mut updated, &words(&["git-upload-packs", "/a.git"])) {
        GitStep::Done(Err(e)) => assert_eq!(e.message(), "invalid command git-upload-packs"),
        _ => panic!("an error was expected"),
    }
    assert!(updated);
    let rule = git.paths.get(&"/a.git".to_string()).unwrap();
    assert_eq!(*rule, GitAccessRule { read: Permission::Ask, write: Permission::Ask });
}

#[test]
fn words_are_judged_by_the_decision_for_their_access() {
    let mut git = GitRules::new();
    git.paths.insert(
        "/a.git".to_string(),
        GitAccessRule { read: Permission::Yes, write: Permission::No },
    );
    let mut updated = false;
    assert!(matches!(
        git.validate_words(&mut updated, &words(&["git-upload-pack", "/a.git"])),
        GitStep::Done(Ok(()))
    ));
    assert!(matches!(
        git.validate_words(&mut updated, &words(&["git-receive-pack", "/a.git", "more"])),
        GitStep::Done(Err(GitError::WriteNotAllowed))
    ));
    assert!(!updated);
    match git.validate_words(&mut updated, &words(&["git-receive-pack", "/b.git"])) {
        GitStep::Ask { path, access } => {
            assert_eq!(path, "/b.git");
            assert_eq!(access, Access::Write);
        }
        _ => panic!("a question was expected"),
    }
    assert!(updated);
}

#[test]
fn a_flag_that_is_set_stays_set() {
    let mut git = GitRules::new();
    let mut updated = true;
    git.validate_words(&mut updated, &None);
    assert!(updated);
}

#[test]
fn the_command_line_is_split_as_a_shell_does() {
    let mut git = GitRules::new();
    let mut updated = false;
    match git.validate_exec(&mut updated, &request("git", "git-upload-pack '/a b.git'")) {
        GitStep::Ask { path, access } => {
            assert_eq!(path, "/a b.git");
            assert_eq!(access, Access::Read);
        }
        _ => panic!("a question was expected"),
    }
    assert!(matches!(
        git.validate_exec(&mut updated, &request("git", "git-upload-pack '/a")),
        GitStep::Done(Err(GitError::ParsingCommand))
    ));
    assert!(matches!(
        git.validate_exec(&mut updated, &request("git", "git-upload-pack # '/a'")),
        GitStep::Done(Err(GitError::MissingArg1))
    ));
}

#[test]
fn a_client_adds_a_server_even_where_nothing_matches() {
    let mut client = ClientRules::new("laptop".to_string());
    let mut updated = false;
    match client.validate_exec(&mut updated, &request("root", "ls")) {
        ExecStep::Done(Err(e)) => {
            assert_eq!(e.message(), "no plugin matches with user:root, data:ls")
        }
        _ => panic!("an error was expected"),
    }
    assert!(updated);
    assert_eq!(client.servers.len(), 1);
    let mut again = false;
    client.validate_exec(&mut again, &request("root", "ls"));
    assert!(!again);
}

#[test]
fn a_decision_is_obeyed_and_nothing_is_saved() {
    let mut rules = rules_with("/a.git", Permission::Yes, Permission::No);
    let (result, save) =
        verdict(rules.handle_req_exec(request("git", "git-upload-pack '/a.git'")));
    assert!(result.is_ok());
    assert!(!save);
    let (result, save) =
        verdict(rules.handle_req_exec(request("git", "git-receive-pack '/a.git'")));
    match result {
        Err(ExecError::GitRule(e)) => assert_eq!(e.message(), "write not allowed"),
        _ => panic!("an error was expected"),
    }
    assert!(!save);
}

#[test]
fn reading_is_refused_where_the_decision_is_no() {
    let mut rules = rules_with("/a.git", Permission::No, Permission::Yes);
    let (result, _) =
        verdict(rules.handle_req_exec(request("git", "git-upload-pack '/a.git'")));
    match result {
        Err(ExecError::GitRule(e)) => assert_eq!(e.message(), "read not allowed"),
        _ => panic!("an error was expected"),
    }
}

#[test]
fn allow_always_is_remembered() {
    let mut rules = known_client();
    let action = rules.handle_req_exec(request("git", "git-upload-pack '/a.git'"));
    assert_eq!(question(action), "read from /a.git");
    assert!(matches!(rules.awaited(), Waiting::Permission { .. }));
    let (result, save) = verdict(rules.permission_answered(reply(true, Permission::Yes)));
    assert!(result.is_ok());
    assert!(save);
    assert_eq!(
        decision(&rules, "/a.git"),
        Some(GitAccessRule { read: Permission::Yes, write: Permission::Ask })
    );
    let (result, save) =
        verdict(rules.handle_req_exec(request("git", "git-upload-pack '/a.git'")));
    assert!(result.is_ok());
    assert!(!save);
}

#[test]
fn deny_always_is_remembered() {
    let mut rules = known_client();
    let action = rules.handle_req_exec(request("git", "git-receive-pack '/a.git'"));
    assert_eq!(question(action), "write to /a.git");
    let (result, save) = verdict(rules.permission_answered(reply(false, Permission::No)));
    match result {
        Err(ExecError::GitRule(e)) => assert_eq!(e.message(), "interactively denied"),
        _ => panic!("an error was expected"),
    }
    assert!(save);
    let (result, save) =
        verdict(rules.handle_req_exec(request("git", "git-receive-pack '/a.git'")));
    assert!(matches!(result, Err(ExecError::GitRule(GitError::WriteNotAllowed))));
    assert!(!save);
}

#[test]
fn allow_once_asks_again_and_saves_only_what_was_added() {
    let mut rules = known_client();
    question(rules.handle_req_exec(request("git", "git-upload-pack '/a.git'")));
    let (result, save) = verdict(rules.permission_answered(reply(true, Permission::Ask)));
    assert!(result.is_ok());
    assert!(save);
    question(rules.handle_req_exec(request("git", "git-upload-pack '/a.git'")));
    let (result, save) = verdict(rules.permission_answered(reply(true, Permission::Ask)));
    assert!(result.is_ok());
    assert!(!save);
    assert_eq!(
        decision(&rules, "/a.git"),
        Some(GitAccessRule { read: Permission::Ask, write: Permission::Ask })
    );
}

#[test]
fn an_unknown_client_is_named_first() {
    let mut rules = Rules::new(StrMap::new());
    match rules.handle_req_exec(request("git", "git-upload-pack '/a.git'")) {
        RulesAction::AskClientName(req) => assert_eq!(req.pk_openssh, PK),
        _ => panic!("a question was expected"),
    }
    assert!(matches!(rules.awaited(), Waiting::ClientName(_)));
    assert_eq!(rules.all_clients().len(), 0);
    let action = rules.client_named(ReplyClientName { name: Some("laptop".to_string()) });
    assert_eq!(question(action), "read from /a.git");
    let (result, save) = verdict(rules.permission_answered(reply(false, Permission::Ask)));
    assert!(result.is_err());
    assert!(save);
    let (key, client) = rules.all_clients().entry(0);
    assert_eq!(key, PK);
    assert_eq!(client.name, "laptop");
}

#[test]
fn an_unnamed_client_is_refused_and_nothing_is_saved() {
    let mut rules = Rules::new(StrMap::new());
    rules.handle_req_exec(request("git", "git-upload-pack '/a.git'"));
    let (result, save) = verdict(rules.client_named(ReplyClientName { name: None }));
    assert_eq!(result.unwrap_err().message(), "no client name set");
    assert!(!save);
    assert_eq!(rules.all_clients().len(), 0);
    assert!(matches!(rules.awaited(), Waiting::Nothing));
}

#[test]
fn a_new_client_that_runs_something_else_is_refused_and_saved() {
    let mut rules = Rules::new(StrMap::new());
    rules.handle_req_exec(request("git", "ls"));
    let (result, save) =
        verdict(rules.client_named(ReplyClientName { name: Some("laptop".to_string()) }));
    assert!(matches!(result, Err(ExecError::NoPluginMatches { .. })));
    assert!(save);
}

#[test]
fn other_decisions_are_untouched() {
    let mut rules = rules_with("/a.git", Permission::Yes, Permission::No);
    question(rules.handle_req_exec(request("git", "git-upload-pack '/b.git'")));
    rules.permission_answered(reply(true, Permission::Yes));
    assert_eq!(
        decision(&rules, "/a.git"),
        Some(GitAccessRule { read: Permission::Yes, write: Permission::No })
    );
    assert_eq!(
        decision(&rules, "/b.git"),
        Some(GitAccessRule { read: Permission::Yes, write: Permission::Ask })
    );
}

#[test]
fn refusals_read_as_they_should() {
    assert_eq!(GitError::ParsingCommand.message(), "parsing command");
    assert_eq!(GitError::MissingArg0.message(), "missing arg0");
    assert_eq!(GitError::MissingArg1.message(), "missing arg1");
    assert_eq!(ExecError::GitRule(GitError::MissingArg1).message(), "git rule");
}

#[test]
fn the_default_is_to_ask() {
    assert_eq!(Permission::default(), Permission::Ask);
    assert_eq!(
        GitAccessRule::default(),
        GitAccessRule { read: Permission::Ask, write: Permission::Ask }
    );
}

#[test]
fn the_defaults_decide_nothing() {
    assert_eq!(GitRules::default().paths.len(), 0);
    assert_eq!(ServerRules::default().git.paths.len(), 0);
    let client = ClientRules::default();
    assert_eq!(client.name, "");
    assert_eq!(client.servers.len(), 0);
}

#[test]
fn a_clone_holds_the_same_and_goes_its_own_way() {
    let mut client = ClientRules::new("laptop".to_string());
    let mut updated = false;
    client.validate_exec(&mut updated, &request("git", "git-upload-pack '/a.git'"));
    let copy = client.clone();
    assert_eq!(format!("{:?}", copy), format!("{:?}", client));
    client.validate_exec(&mut updated, &request("git", "git-upload-pack '/b.git'"));
    assert_eq!(copy.name, "laptop");
    let server = copy.servers.get(&SERVER.to_string()).unwrap();
    assert_eq!(server.git.paths.len(), 1);
    assert_eq!(
        server.git.paths.get(&"/a.git".to_string()),
        Some(&GitAccessRule { read: Permission::Ask, write: Permission::Ask })
    );
}
