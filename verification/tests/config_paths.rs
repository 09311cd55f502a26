use ufs::config::{RuntimeConfig, ServerConfig, TlsConfig};
use ufs::server::Server;
use ufs::utils::{classify_dirpath, get_valid_dirpath, PathError};

fn sample_config() -> RuntimeConfig {
    RuntimeConfig {
        server_config: ServerConfig {
            host: String::from("localhost"),
            ip: String::from("0.0.0.0"),
            port: 80,
        },
        fs_root: String::from("SMLNODE/fs"),
    }
}

#[test]
fn test_overrides_replace_each_field() {
    let mut config = sample_config();
    config.server_host(String::from("example"));
    config.server_ip(String::from("127.0.0.1"));
    config.server_port(8080);
    assert_eq!(config.server_config.host, "example");
    assert_eq!(config.server_config.ip, "127.0.0.1");
    assert_eq!(config.server_config.port, 8080);
    assert_eq!(config.fs_root, "SMLNODE/fs");
}

#[test]
fn test_apply_overrides_in_order() {
    let mut config = sample_config();
    config.apply_overrides(String::from("example"), String::from("10.0.0.1"), 9999);
    assert_eq!(config.server_config.host, "example");
    assert_eq!(config.server_config.ip, "10.0.0.1");
    assert_eq!(config.server_config.port, 9999);
    assert_eq!(config.fs_root, "SMLNODE/fs");
}

#[test]
fn test_server_config_setters() {
    let mut sc = ServerConfig {
        host: String::from("a"),
        ip: String::from("b"),
        port: 1,
    };
    sc.server_host(String::from("h"));
    sc.server_port(8080);
    assert_eq!(sc.host, "h");
    assert_eq!(sc.ip, "b");
    assert_eq!(sc.port, 8080);
}

#[test]
fn test_tls_config_holds_paths() {
    let tls = TlsConfig {
        enable: false,
        certificate_path: None,
        key_path: Some(String::from("key.pem")),
    };
    assert!(!tls.enable);
    assert!(tls.certificate_path.is_none());
    assert_eq!(tls.key_path.as_deref(), Some("key.pem"));
}

#[test]
fn test_server_sizes_worker_pool() {
    let server = Server::new(sample_config());
    assert!(server.threads >= 1);
    assert_eq!(server.conf.fs_root, "SMLNODE/fs");
}

#[test]
fn test_classify_dirpath() {
    assert!(classify_dirpath(true, true).is_ok());
    assert!(matches!(classify_dirpath(false, false), Err(PathError::NotFound)));
    assert!(matches!(classify_dirpath(false, true), Err(PathError::NotFound)));
    assert!(matches!(classify_dirpath(true, false), Err(PathError::NotADirectory)));
}

#[test]
fn test_valid_dirpath_comes_back_unchanged() {
    let r = get_valid_dirpath(String::from("."));
    assert_eq!(r.ok().as_deref(), Some("."));
}

#[test]
fn test_missing_path_is_not_found() {
    let r = get_valid_dirpath(String::from("no_such_directory_anywhere_here"));
    assert!(matches!(r, Err(PathError::NotFound)));
}

#[test]
fn test_root_directory_is_accepted() {
    let r = get_valid_dirpath(String::from("/"));
    assert_eq!(r.ok().as_deref(), Some("/"));
}
