use mcp_hyper_server::components::Components;
use mcp_hyper_server::error::TransportServerError;
use mcp_hyper_server::files::probe;
use mcp_hyper_server::options::HyperServerOptions;
use std::time::Duration;
use tempfile::NamedTempFile;

struct Parts;

impl Components for Parts {
    type SessionIdGenerator = str;
    type TransportOptions = u32;
    type EventStore = str;
    type ServerTaskStore = str;
    type ClientTaskStore = str;
    type AuthProvider = str;
    type HealthHandler = str;
    type MessageObserver = str;
    type ServerHandler = str;
    type SessionStore = ();
    type SessionRuntime = str;
    type ServerTask = &'static str;
    type JoinError = &'static str;
    type PollingError = &'static str;
}

type Options = HyperServerOptions<Parts>;

#[test]
fn test_server_options_base_url_custom() {
    let options = Options {
        host: String::from("127.0.0.1"),
        port: 8081,
        enable_ssl: true,
        ..Default::default()
    };
    assert_eq!(options.base_url(), "https://127.0.0.1:8081");
}

#[test]
fn test_server_options_streamable_http_custom() {
    let options = Options {
        custom_streamable_http_endpoint: Some(String::from("/abcd/mcp")),
        host: String::from("127.0.0.1"),
        port: 8081,
        enable_ssl: true,
        ..Default::default()
    };
    assert_eq!(
        options.streamable_http_url(),
        "https://127.0.0.1:8081/abcd/mcp"
    );
    assert_eq!(options.streamable_http_endpoint(), "/abcd/mcp");
}

#[test]
fn test_server_options_sse_custom() {
    let options = Options {
        custom_sse_endpoint: Some(String::from("/abcd/sse")),
        host: String::from("127.0.0.1"),
        port: 8081,
        enable_ssl: true,
        ..Default::default()
    };
    assert_eq!(options.sse_url(), "https://127.0.0.1:8081/abcd/sse");
    assert_eq!(options.sse_endpoint(), "/abcd/sse");
}

#[test]
fn test_server_options_sse_messages_custom() {
    let options = Options {
        custom_messages_endpoint: Some(String::from("/abcd/messages")),
        ..Default::default()
    };
    assert_eq!(
        options.sse_message_url(),
        "http://127.0.0.1:8080/abcd/messages"
    );
    assert_eq!(options.sse_messages_endpoint(), "/abcd/messages");
}

#[test]
fn test_server_options_needs_dns_protection() {
    let options = Options::default();

    // should be false by default
    assert!(!options.needs_dns_protection());

    // should still be false unless allowed_hosts or allowed_origins are also provided
    let options = Options {
        dns_rebinding_protection: true,
        ..Default::default()
    };
    assert!(!options.needs_dns_protection());

    // should be true when dns_rebinding_protection is true and allowed_hosts is provided
    let options = Options {
        dns_rebinding_protection: true,
        allowed_hosts: Some(vec![String::from("127.0.0.1")]),
        ..Default::default()
    };
    assert!(options.needs_dns_protection());

    // should be true when dns_rebinding_protection is true and allowed_origins is provided
    let options = Options {
        dns_rebinding_protection: true,
        allowed_origins: Some(vec![String::from("http://127.0.0.1:8080")]),
        ..Default::default()
    };
    assert!(options.needs_dns_protection());
}

#[test]
fn test_server_options_validate() {
    let options = Options::default();
    assert!(options.validate().is_ok());

    // with ssl enabled but no cert or key provided, validate should fail
    let options = Options {
        enable_ssl: true,
        ..Default::default()
    };
    assert!(options.validate().is_err());

    // with ssl enabled and invalid cert/key paths, validate should fail
    let options = Options {
        enable_ssl: true,
        ssl_cert_path: Some(String::from("/invalid/path/to/cert.pem")),
        ssl_key_path: Some(String::from("/invalid/path/to/key.pem")),
        ..Default::default()
    };
    assert!(options.validate().is_err());

    // with ssl enabled and valid cert/key paths, validate should succeed
    let cert_file = NamedTempFile::with_suffix(".pem").expect("Expected to create test cert file");
    let ssl_cert_path = cert_file
        .path()
        .to_str()
        .expect("Expected to get cert path")
        .to_string();
    let key_file = NamedTempFile::with_suffix(".pem").expect("Expected to create test key file");
    let ssl_key_path = key_file
        .path()
        .to_str()
        .expect("Expected to get key path")
        .to_string();

    let options = Options {
        enable_ssl: true,
        ssl_cert_path: Some(ssl_cert_path),
        ssl_key_path: Some(ssl_key_path),
        ..Default::default()
    };
    assert!(options.validate().is_ok());
}

fn message(result: Result<(), TransportServerError>) -> String {
    match result {
        Err(TransportServerError::InvalidServerOptions(text)) => text,
        other => panic!("unexpected: {:?}", other),
    }
}

const BOTH: &str = "Both 'ssl_cert_path' and 'ssl_key_path' must be provided when SSL is enabled.";
const CERT: &str = "'ssl_cert_path' does not point to a valid or existing file.";
const KEY: &str = "'ssl_key_path' does not point to a valid or existing file.";

#[test]
fn defaults() {
    let options = Options::default();
    assert_eq!(options.host, "127.0.0.1");
    assert_eq!(options.port, 8080);
    assert_eq!(options.ping_interval, Duration::from_secs(12));
    assert_eq!(*options.transport_options, 0);
    assert!(options.sse_support);
    assert!(options.enable_signal_handler);
    assert!(!options.enable_ssl);
    assert!(!options.dns_rebinding_protection);
    assert!(options.enable_json_response.is_none());
    assert!(options.health_endpoint.is_none());
    assert!(options.auth.is_none());
    assert_eq!(options.base_url(), "http://127.0.0.1:8080");
    assert_eq!(options.streamable_http_endpoint(), "/mcp");
    assert_eq!(options.sse_endpoint(), "/sse");
    assert_eq!(options.sse_messages_endpoint(), "/messages");
    assert_eq!(options.streamable_http_url(), "http://127.0.0.1:8080/mcp");
    assert_eq!(options.sse_url(), "http://127.0.0.1:8080/sse");
    assert_eq!(options.sse_message_url(), "http://127.0.0.1:8080/messages");
}

#[test]
fn ports_are_decimal() {
    for port in [0u16, 7, 10, 80, 309, 8080, 10000, 65535] {
        let options = Options {
            host: String::from("h"),
            port,
            ..Default::default()
        };
        assert_eq!(options.base_url(), format!("http://h:{}", port));
    }
}

#[test]
fn lists_alone_do_not_protect() {
    let options = Options {
        allowed_hosts: Some(vec![]),
        allowed_origins: Some(vec![]),
        ..Default::default()
    };
    assert!(!options.needs_dns_protection());
}

#[test]
fn probed_validation_names_what_is_missing() {
    let without = Options {
        enable_ssl: true,
        ssl_cert_path: Some(String::from("cert.pem")),
        ..Default::default()
    };
    assert_eq!(message(without.validate_probed(true, true)), BOTH);
    let with = Options {
        enable_ssl: true,
        ssl_cert_path: Some(String::from("cert.pem")),
        ssl_key_path: Some(String::from("key.pem")),
        ..Default::default()
    };
    assert_eq!(message(with.validate_probed(false, false)), CERT);
    assert_eq!(message(with.validate_probed(false, true)), CERT);
    assert_eq!(message(with.validate_probed(true, false)), KEY);
    assert!(with.validate_probed(true, true).is_ok());
    let plain = Options {
        enable_ssl: false,
        ..with
    };
    assert!(plain.validate_probed(false, false).is_ok());
}

#[test]
fn files_are_probed_only_where_they_decide() {
    let with = |enable_ssl: bool, cert: Option<&str>, key: Option<&str>| Options {
        enable_ssl,
        ssl_cert_path: cert.map(String::from),
        ssl_key_path: key.map(String::from),
        ..Default::default()
    };
    assert_eq!(
        with(true, Some("cert.pem"), Some("key.pem")).files_to_probe(),
        Some(("cert.pem", "key.pem"))
    );
    assert_eq!(with(true, Some("cert.pem"), None).files_to_probe(), None);
    assert_eq!(with(true, None, Some("key.pem")).files_to_probe(), None);
    assert_eq!(with(false, Some("cert.pem"), Some("key.pem")).files_to_probe(), None);
}

#[test]
fn probing_tells_files_from_other_paths() {
    let file = NamedTempFile::with_suffix(".pem").unwrap();
    assert!(probe(file.path().to_str().unwrap()));
    assert!(!probe(file.path().parent().unwrap().to_str().unwrap()));
    assert!(!probe("/no/such/file"));
    assert!(!probe(""));
}

#[test]
fn validation_asks_the_file_system() {
    let file = NamedTempFile::with_suffix(".pem").unwrap();
    let path = file.path().to_str().unwrap().to_string();
    let directory = file.path().parent().unwrap().to_str().unwrap().to_string();
    let ssl = |cert: &str, key: &str| Options {
        enable_ssl: true,
        ssl_cert_path: Some(cert.to_string()),
        ssl_key_path: Some(key.to_string()),
        ..Default::default()
    };
    assert!(ssl(&path, &path).validate().is_ok());
    assert_eq!(message(ssl("/no/such/file", &path).validate()), CERT);
    assert_eq!(message(ssl(&path, "/no/such/file").validate()), KEY);
    assert_eq!(message(ssl(&directory, &path).validate()), CERT);
    assert_eq!(message(ssl("", &path).validate()), CERT);
}
