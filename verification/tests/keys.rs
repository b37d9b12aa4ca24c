use ssh_git_fw::keys::PublicKey;

const KEY: &str = "ssh-ed25519 AAAAC3NzaC1lZDI1NTE5AAAAILM+rvN+ot98qgEN796jTiQfZfG1KaT0PtFDJ/XFSqti user@example.com";
const BARE: &str =
    "ssh-ed25519 AAAAC3NzaC1lZDI1NTE5AAAAILM+rvN+ot98qgEN796jTiQfZfG1KaT0PtFDJ/XFSqti";

#[test]
fn a_key_reads_back_as_it_was_written() {
    let key = PublicKey::from_openssh(KEY).unwrap();
    assert_eq!(key.to_openssh(), KEY);
    let again = PublicKey::from_openssh(&key.to_openssh()).unwrap();
    assert!(key.same(&again));
    assert!(key.copy().same(&key));
}

#[test]
fn white_space_behind_a_key_is_dropped() {
    let key = PublicKey::from_openssh(&format!("{} \r\n", KEY)).unwrap();
    assert_eq!(key.to_openssh(), KEY);
    let key = PublicKey::from_openssh(&format!("{}  ", BARE)).unwrap();
    assert_eq!(key.to_openssh(), BARE);
}

#[test]
fn the_comment_belongs_to_the_key() {
    let key = PublicKey::from_openssh(KEY).unwrap();
    let bare = PublicKey::from_openssh(BARE).unwrap();
    assert!(!key.same(&bare));
    assert_eq!(key.fingerprint(), bare.fingerprint());
}

#[test]
fn the_fingerprint_is_that_of_the_key_data() {
    let key = PublicKey::from_openssh(KEY).unwrap();
    assert_eq!(key.fingerprint(), "SHA256:UCUiLr7Pjs9wFFJMDByLgc3NrtdU344OgUM45wZPcIQ");
}

#[test]
fn what_is_no_key_is_refused() {
    for text in ["", "ssh-ed25519", "ssh-rsa AAAAC3NzaC1lZDI1NTE5", "ssh-ed25519 !"] {
        let expected = ssh_key::PublicKey::from_openssh(text).unwrap_err().to_string();
        match PublicKey::from_openssh(text) {
            Err(e) => assert_eq!(e, expected),
            Ok(_) => panic!("{} was taken for a key", text),
        }
    }
}

#[test]
fn a_key_under_another_algorithm_is_refused() {
    let text = BARE.replace("ssh-ed25519 ", "ssh-rsa ");
    assert!(PublicKey::from_openssh(&text).is_err());
}
