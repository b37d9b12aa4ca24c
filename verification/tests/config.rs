use ssh_git_fw::config::Config;

fn config(inbound: &str, outbound: &str) -> Config {
    Config {
        inbound_server_address: "127.0.0.1:1080".to_string(),
        inbound_server_identity_file: inbound.to_string(),
        outbound_client_identity_file: outbound.to_string(),
    }
}

#[test]
fn a_path_in_the_home_directory_is_expanded() {
    let c = config("~/inbound", "~/outbound/~");
    assert_eq!(c.inbound_server_identity_path(Some("/home/user")), "/home/user/inbound");
    assert_eq!(c.outbound_client_identity_path(Some("/home/user")), "/home/user/outbound/~");
    let c = config("~", "~/");
    assert_eq!(c.inbound_server_identity_path(Some("/home/user")), "/home/user");
    assert_eq!(c.outbound_client_identity_path(Some("")), "/");
}

#[test]
fn without_a_home_directory_a_path_stays() {
    let c = config("~/inbound", "~");
    assert_eq!(c.inbound_server_identity_path(None), "~/inbound");
    assert_eq!(c.outbound_client_identity_path(None), "~");
}

#[test]
fn another_path_stays() {
    let c = config("/etc/key", "~user/key");
    assert_eq!(c.inbound_server_identity_path(Some("/home/user")), "/etc/key");
    assert_eq!(c.outbound_client_identity_path(Some("/home/user")), "~user/key");
    let c = config("", "a/~/b");
    assert_eq!(c.inbound_server_identity_path(Some("/home/user")), "");
    assert_eq!(c.outbound_client_identity_path(Some("/home/user")), "a/~/b");
}
