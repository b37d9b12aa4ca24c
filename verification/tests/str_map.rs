use ssh_git_fw::model::Permission;
use ssh_git_fw::rules::policy::GitAccessRule;
use ssh_git_fw::str_map::StrMap;

fn rule(read: Permission) -> GitAccessRule {
    GitAccessRule { read, write: Permission::Ask }
}

#[test]
fn a_key_holds_what_was_put_there_last() {
    let mut m: StrMap<GitAccessRule> = StrMap::new();
    assert!(m.get(&"a".to_string()).is_none());
    m.insert("a".to_string(), rule(Permission::Yes));
    m.insert("b".to_string(), rule(Permission::No));
    m.insert("a".to_string(), rule(Permission::No));
    assert_eq!(m.len(), 2);
    assert_eq!(*m.get(&"a".to_string()).unwrap(), rule(Permission::No));
    assert_eq!(m.entry(0).0, "a");
    assert_eq!(m.entry(1).0, "b");
}

#[test]
fn a_value_is_changed_in_place() {
    let mut m: StrMap<GitAccessRule> = StrMap::new();
    m.insert("a".to_string(), rule(Permission::Ask));
    m.get_mut(&"a".to_string()).unwrap().read = Permission::Yes;
    assert_eq!(*m.get(&"a".to_string()).unwrap(), rule(Permission::Yes));
    assert!(m.get_mut(&"b".to_string()).is_none());
}

#[test]
fn a_missing_value_is_put_there_first() {
    let mut m: StrMap<GitAccessRule> = StrMap::new();
    let mut inserted = false;
    m.get_or_insert(&"a".to_string(), rule(Permission::Ask), &mut inserted).read = Permission::No;
    assert!(inserted);
    let mut again = false;
    let found = m.get_or_insert(&"a".to_string(), rule(Permission::Yes), &mut again);
    assert_eq!(*found, rule(Permission::No));
    assert!(!again);
    assert_eq!(m.len(), 1);
}
