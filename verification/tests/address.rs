use mcp_hyper_server::address::{after_parse, AddressStep};
use mcp_hyper_server::components::Components;
use mcp_hyper_server::error::TransportServerError;
use mcp_hyper_server::options::HyperServerOptions;

struct Parts;

impl Components for Parts {
    type SessionIdGenerator = str;
    type TransportOptions = u32;
    type EventStore = str;
    type ServerTaskStore = str;
    type ClientTaskStore = str;
    type AuthProvider = str;
    type HealthHandler = str;
    type MessageObserver = str;
    type ServerHandler = str;
    type SessionStore = ();
    type SessionRuntime = str;
    type ServerTask = &'static str;
    type JoinError = &'static str;
    type PollingError = &'static str;
}

type Options = HyperServerOptions<Parts>;

fn at(host: &str, port: u16) -> Options {
    Options {
        host: String::from(host),
        port,
        ..Default::default()
    }
}

fn looked_up(options: &Options) -> (String, u16) {
    match options.resolve_server_address::<u8>() {
        AddressStep::Lookup { host, port, .. } => (host, port),
        _ => panic!("no lookup"),
    }
}

/// Searches for the address with the resolver of the system.
fn resolves(options: &Options) -> bool {
    let rt = tokio::runtime::Runtime::new().unwrap();
    let mut step = options.resolve_server_address();
    loop {
        step = match step {
            AddressStep::Lookup { host, port, .. } => options.after_lookup(
                rt.block_on(tokio::net::lookup_host((host.as_str(), port)))
                    .map(|addresses| addresses.collect())
                    .map_err(|error| error.to_string()),
            ),
            AddressStep::Parse(text) => after_parse(
                text.parse()
                    .map_err(|_| String::from("invalid socket address")),
            ),
            AddressStep::Resolved(_) => return true,
            AddressStep::Failed(_) => return false,
        };
    }
}

#[test]
fn test_server_options_resolve_server_address() {
    let options = Options::default();
    assert!(resolves(&options));

    // valid host should still work
    let options = Options {
        host: String::from("8.6.7.5"),
        port: 309,
        ..Default::default()
    };
    assert!(resolves(&options));

    // valid host (prepended with http://) should still work
    let options = Options {
        host: String::from("http://8.6.7.5"),
        port: 309,
        ..Default::default()
    };
    assert!(resolves(&options));

    // invalid host should raise an error
    let options = Options {
        host: String::from("invalid-host"),
        port: 309,
        ..Default::default()
    };
    assert!(!resolves(&options));
}

#[test]
fn schemes_are_ignored() {
    assert_eq!(looked_up(&at("8.6.7.5", 309)), (String::from("8.6.7.5"), 309));
    assert_eq!(looked_up(&at("http://8.6.7.5", 309)).0, "8.6.7.5");
    assert_eq!(looked_up(&at("https://8.6.7.5", 309)).0, "8.6.7.5");
    assert_eq!(looked_up(&at("http://", 1)).0, "");
    assert_eq!(looked_up(&at("http:/", 1)).0, "http:/");
    assert_eq!(looked_up(&at("", 1)).0, "");
    assert_eq!(looked_up(&at("ftp://a", 1)).0, "ftp://a");
    assert_eq!(looked_up(&at("HTTP://a", 1)).0, "HTTP://a");
    // only one scheme goes
    assert_eq!(looked_up(&at("http://https://a", 1)).0, "https://a");
    assert_eq!(looked_up(&at("https://http://a", 1)).0, "http://a");
    assert_eq!(looked_up(&at("http://b\u{fc}cher.example", 1)).0, "b\u{fc}cher.example");
}

fn warned(options: &Options) -> Option<&'static str> {
    match options.resolve_validated::<u8>(Ok(())) {
        AddressStep::Lookup { warning, .. } => warning,
        _ => panic!("no lookup"),
    }
}

#[test]
fn other_scheme_is_warned_of() {
    let ssl = |host: &str| Options {
        enable_ssl: true,
        ..at(host, 1)
    };
    assert!(ssl("http://a").scheme_mismatch());
    assert!(!ssl("https://a").scheme_mismatch());
    assert!(!ssl("a").scheme_mismatch());
    assert!(at("https://8.6.7.5", 309).scheme_mismatch());
    assert!(!at("http://a", 1).scheme_mismatch());
    assert!(!at("a", 1).scheme_mismatch());

    assert_eq!(
        warned(&ssl("http://a")),
        Some("Warning: Ignoring http:// scheme for SSL; using hostname only")
    );
    assert_eq!(
        warned(&at("https://8.6.7.5", 309)),
        Some("Warning: Ignoring https:// scheme without SSL; using hostname only")
    );
    assert_eq!(looked_up(&at("https://8.6.7.5", 309)), (String::from("8.6.7.5"), 309));
    assert_eq!(warned(&ssl("https://a")), None);
    assert_eq!(warned(&at("http://a", 1)), None);
    assert_eq!(warned(&at("a", 1)), None);
}

#[test]
fn invalid_options_are_not_looked_up() {
    let options = Options {
        enable_ssl: true,
        ..Default::default()
    };
    assert!(matches!(
        options.resolve_server_address::<u8>(),
        AddressStep::Failed(TransportServerError::InvalidServerOptions(_))
    ));
    assert!(matches!(
        options.resolve_validated::<u8>(Ok(())),
        AddressStep::Lookup { .. }
    ));
}

#[test]
fn first_address_is_taken() {
    let options = at("http://a", 309);
    assert!(matches!(
        options.after_lookup(Ok(vec![7u8, 8, 9])),
        AddressStep::Resolved(7)
    ));
    match options.after_lookup::<u8>(Ok(vec![])) {
        AddressStep::Parse(text) => assert_eq!(text, "http://a:309"),
        _ => panic!("nothing to read"),
    }
    match options.after_lookup::<u8>(Err(String::from("no resolver"))) {
        AddressStep::Failed(TransportServerError::ServerStartError(text)) => {
            assert_eq!(text, "no resolver")
        }
        _ => panic!("no error"),
    }
    assert!(matches!(after_parse(Ok(4u8)), AddressStep::Resolved(4)));
    match after_parse::<u8>(Err(String::from("not an address"))) {
        AddressStep::Failed(TransportServerError::ServerStartError(text)) => {
            assert_eq!(text, "not an address")
        }
        _ => panic!("no error"),
    }
}
