use cluster_net::addr::{to_host_addr, ClientConfig, PersistableHostAddr};
use cluster_net::{BAD_REQUEST, INTERNAL_SERVER_ERROR, SUCCESS};

#[test]
pub fn test_to_host_addr() {
    let mut addr = PersistableHostAddr {
        host: "198.0.0.1".to_string(),
        port: 8970,
    };

    let host_addr = to_host_addr(&addr);
    assert_eq!(host_addr.host.as_str(), "198.0.0.1");
    assert_eq!(host_addr.port, 8970);

    assert_eq!(addr.as_uri().as_str(), "http://198.0.0.1:8970");
    assert!(addr.is_valid());

    addr.host = "".to_string();
    assert!(!addr.is_valid());

    addr.host = "198.0.0.1".to_string();
    addr.port = 0;
    assert!(!addr.is_valid());
}

#[test]
fn uri_renders_every_digit_count() {
    let uri = |host: &str, port: u16| {
        PersistableHostAddr { host: host.to_string(), port }.as_uri()
    };
    assert_eq!(uri("localhost", 0), "http://localhost:0");
    assert_eq!(uri("localhost", 7), "http://localhost:7");
    assert_eq!(uri("localhost", 10), "http://localhost:10");
    assert_eq!(uri("localhost", 80), "http://localhost:80");
    assert_eq!(uri("localhost", 808), "http://localhost:808");
    assert_eq!(uri("localhost", 1005), "http://localhost:1005");
    assert_eq!(uri("localhost", 12345), "http://localhost:12345");
    assert_eq!(uri("localhost", 60000), "http://localhost:60000");
    assert_eq!(uri("localhost", 65535), "http://localhost:65535");
}

#[test]
fn uri_keeps_the_host_as_it_is() {
    let empty = PersistableHostAddr { host: String::new(), port: 1 };
    assert_eq!(empty.as_uri(), "http://:1");
    let wide = PersistableHostAddr { host: "n\u{f6}de.example".to_string(), port: 9 };
    assert_eq!(wide.as_uri(), "http://n\u{f6}de.example:9");
}

#[test]
fn uri_agrees_with_std_formatting_on_all_ports() {
    let mut port: u16 = 0;
    loop {
        let addr = PersistableHostAddr { host: "h".to_string(), port };
        assert_eq!(addr.as_uri(), format!("http://{}:{}", "h", port));
        if port == u16::MAX {
            break;
        }
        port += 1;
    }
}

#[test]
fn push_decimal_appends_to_what_is_there() {
    let mut out = "port ".to_string();
    cluster_net::addr::push_decimal(&mut out, 4096);
    assert_eq!(out, "port 4096");
}

#[test]
fn validity_needs_host_and_port() {
    let addr = |host: &str, port: u16| PersistableHostAddr { host: host.to_string(), port };
    assert!(addr("a", 1).is_valid());
    assert!(addr("a", 65535).is_valid());
    assert!(!addr("", 1).is_valid());
    assert!(!addr("a", 0).is_valid());
    assert!(!addr("", 0).is_valid());
    assert!(!PersistableHostAddr::default().is_valid());
}

#[test]
fn local_takes_the_discovered_name() {
    let addr = PersistableHostAddr::local(Some("worker-3".to_string()), 8080);
    assert_eq!(addr, PersistableHostAddr { host: "worker-3".to_string(), port: 8080 });
    assert!(addr.is_valid());
}

#[test]
fn local_without_a_name_has_an_empty_host() {
    let addr = PersistableHostAddr::local(None, 8080);
    assert_eq!(addr.host, "");
    assert_eq!(addr.port, 8080);
    assert!(!addr.is_valid());
}

#[test]
fn local_cuts_the_port_to_sixteen_bits() {
    assert_eq!(PersistableHostAddr::local(None, 65535).port, 65535);
    assert_eq!(PersistableHostAddr::local(None, 65536).port, 0);
    assert_eq!(PersistableHostAddr::local(None, 65536 + 8970).port, 8970);
    assert_eq!(PersistableHostAddr::local(None, 0x12_3456).port, 0x3456);
}

#[test]
fn host_addr_widens_the_port() {
    let addr = PersistableHostAddr { host: "edge".to_string(), port: 65535 };
    let wire = to_host_addr(&addr);
    assert_eq!(wire.host, "edge");
    assert_eq!(wire.port, 65535u32);
}

#[test]
fn client_config_holds_its_fields() {
    let config = ClientConfig {
        address: PersistableHostAddr { host: "a".to_string(), port: 2 },
        timeout: 3,
        retry: 4,
    };
    let copy = config.clone();
    assert_eq!(copy.address, config.address);
    assert_eq!(copy.timeout, 3);
    assert_eq!(copy.retry, 4);
}

#[test]
fn status_codes() {
    assert_eq!(SUCCESS, 200);
    assert_eq!(BAD_REQUEST, 400);
    assert_eq!(INTERNAL_SERVER_ERROR, 500);
}

#[test]
fn hostname_drops_the_line_end() {
    assert_eq!(cluster_net::addr::hostname(Some("worker-3\n".to_string())), Some("worker-3".to_string()));
    assert_eq!(cluster_net::addr::hostname(Some("\n".to_string())), Some(String::new()));
    assert_eq!(cluster_net::addr::hostname(Some(String::new())), Some(String::new()));
    assert_eq!(cluster_net::addr::hostname(Some("kn\u{f6}t\u{e9}".to_string())), Some("kn\u{f6}t".to_string()));
    assert_eq!(cluster_net::addr::hostname(None), None);
}

#[test]
fn local_from_the_command_output() {
    let name = cluster_net::addr::hostname(Some("coordinator\n".to_string()));
    let addr = PersistableHostAddr::local(name, 8970);
    assert_eq!(addr.as_uri(), "http://coordinator:8970");
}
