use ssh_git_fw::model::Permission;
use ssh_git_fw::ui::messages::{RequestClientName, RequestPermission};
use ssh_git_fw::ui::{
    ClientNameDialog, ClientNameEvent, PermissionDialog, PermissionEvent, WindowAction,
};

fn permission_dialog() -> PermissionDialog {
    PermissionDialog::new(RequestPermission {
        pk_openssh: "ssh-ed25519 AAAA".to_string(),
        action: "read from /a.git".to_string(),
    })
}

fn client_name_dialog() -> ClientNameDialog {
    ClientNameDialog::new(RequestClientName { pk_openssh: "ssh-ed25519 AAAA".to_string() })
}

#[test]
fn buttons_do_what_they_say() {
    for (event, now, future) in [
        (PermissionEvent::AllowAlways, true, Permission::Yes),
        (PermissionEvent::AllowOnce, true, Permission::Ask),
        (PermissionEvent::DenyAlways, false, Permission::No),
    ] {
        let mut dialog = permission_dialog();
        assert!(!dialog.is_answered());
        let (reply, action) = dialog.handle(event);
        let reply = reply.unwrap();
        assert_eq!(reply.now, now);
        assert_eq!(reply.future, future);
        assert_eq!(action, WindowAction::Close);
        assert!(dialog.is_answered());
    }
}

#[test]
fn a_permission_is_answered_once() {
    let mut dialog = permission_dialog();
    dialog.handle(PermissionEvent::AllowOnce);
    let (reply, action) = dialog.handle(PermissionEvent::CloseRequest);
    assert!(reply.is_none());
    assert_eq!(action, WindowAction::Hide);
}

#[test]
fn closing_the_window_denies_once() {
    let mut dialog = permission_dialog();
    let (reply, action) = dialog.handle(PermissionEvent::CloseRequest);
    let reply = reply.unwrap();
    assert!(!reply.now);
    assert_eq!(reply.future, Permission::Ask);
    assert_eq!(action, WindowAction::Hide);
    assert!(dialog.handle(PermissionEvent::CloseRequest).0.is_none());
}

#[test]
fn the_windows_say_what_they_ask() {
    assert_eq!(
        permission_dialog().markup(),
        "Allow\n<b>ssh-ed25519 AAAA</b>\nto read from /a.git?"
    );
    assert_eq!(
        client_name_dialog().markup(),
        "New client with key\n<b>ssh-ed25519 AAAA</b>\n"
    );
}

fn typed(dialog: &mut ClientNameDialog, name: &str) {
    let (reply, action) = dialog.handle(ClientNameEvent::Changed(name.to_string()));
    assert!(reply.is_none());
    assert_eq!(action, WindowAction::Stay);
}

#[test]
fn a_name_is_answered_once() {
    let mut dialog = client_name_dialog();
    typed(&mut dialog, "lap");
    typed(&mut dialog, "laptop");
    assert!(!dialog.is_answered());
    let (reply, action) = dialog.handle(ClientNameEvent::Save);
    assert_eq!(reply.unwrap().name, Some("laptop".to_string()));
    assert_eq!(action, WindowAction::Close);
    assert!(dialog.is_answered());
    let (reply, action) = dialog.handle(ClientNameEvent::CloseRequest);
    assert!(reply.is_none());
    assert_eq!(action, WindowAction::Hide);
    typed(&mut dialog, "desktop");
    assert!(dialog.is_answered());
}

#[test]
fn closing_the_window_gives_no_name() {
    let mut dialog = client_name_dialog();
    typed(&mut dialog, "laptop");
    let (reply, action) = dialog.handle(ClientNameEvent::CloseRequest);
    assert_eq!(reply.unwrap().name, None);
    assert_eq!(action, WindowAction::Hide);
    assert!(dialog.handle(ClientNameEvent::CloseRequest).0.is_none());
}

#[test]
fn an_empty_name_cannot_be_saved() {
    let mut dialog = client_name_dialog();
    assert!(!dialog.can_save());
    typed(&mut dialog, "é");
    assert!(dialog.can_save());
    typed(&mut dialog, "");
    assert!(!dialog.can_save());
    typed(&mut dialog, " ");
    assert!(dialog.can_save());
}
