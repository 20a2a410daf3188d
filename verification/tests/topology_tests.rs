use netowiru::config::ProxyConfig;
use netowiru::namemap::NameMap;
use netowiru::proxy::Client;
use netowiru::proxy::Proxy;
use netowiru::proxy::Server;

const SAMPLE_CONFIG: &str = "\
incomming:
  address: 127.0.0.1:8002
  services:
    echo: 127.0.0.1:8001
    db: 127.0.0.1:5432
outgoing:
  echo:
    local_address: 127.0.0.1:8003
    proxy_address: 127.0.0.1:8002
";

#[test]
fn config_loads_from_yaml_text() {
    let config = ProxyConfig::from_yaml_str(SAMPLE_CONFIG).expect("well-formed config");
    assert_eq!(config.incomming.address, "127.0.0.1:8002");
    assert_eq!(
        config.incomming.services.get(&"echo".to_string()),
        Some(&"127.0.0.1:8001".to_string())
    );
    assert_eq!(
        config.incomming.services.get(&"db".to_string()),
        Some(&"127.0.0.1:5432".to_string())
    );
    assert_eq!(config.incomming.services.get(&"ftp".to_string()), None);
    assert_eq!(config.outgoing.len(), 1);
    let tunnel = config
        .outgoing
        .get(&"echo".to_string())
        .expect("echo tunnel");
    assert_eq!(tunnel.local_address, "127.0.0.1:8003");
    assert_eq!(tunnel.proxy_address, "127.0.0.1:8002");
}

#[test]
fn malformed_config_is_refused_whole() {
    assert!(ProxyConfig::from_yaml_str("not: [valid").is_none());
    assert!(ProxyConfig::from_yaml_str("").is_none());
    // Missing services map.
    assert!(ProxyConfig::from_yaml_str("incomming:\n  address: 127.0.0.1:8002\n").is_none());
    // A service value of the wrong kind.
    assert!(ProxyConfig::from_yaml_str(
        "incomming:\n  address: a\n  services:\n    echo: [1, 2]\noutgoing: {}\n"
    )
    .is_none());
}

#[test]
fn proxy_builds_one_router_and_one_tunnel_per_entry() {
    let config = ProxyConfig::from_yaml_str(SAMPLE_CONFIG).expect("well-formed config");
    let proxy = Proxy::build(config);
    assert_eq!(proxy.server().addr(), "127.0.0.1:8002");
    let clients: &Vec<Client> = proxy.clients();
    assert_eq!(clients.len(), 1);
    assert_eq!(clients[0].name, "echo");
    assert_eq!(clients[0].local_address, "127.0.0.1:8003");
    assert_eq!(clients[0].proxy_address, "127.0.0.1:8002");
}

#[test]
fn router_routes_by_its_own_map() {
    let mut services: NameMap<String> = NameMap::new();
    services.insert("echo".to_string(), "127.0.0.1:8001".to_string());
    let server = Server::new("127.0.0.1:8002", services);
    assert_eq!(server.addr(), "127.0.0.1:8002");
    let routed = server.route(b"echo").expect("known service");
    assert_eq!(routed.backend_address, "127.0.0.1:8001");
    assert!(server.route(b"ftp").is_none());
}

#[test]
fn name_map_binds_each_name_once() {
    let mut map: NameMap<String> = NameMap::new();
    assert_eq!(map.len(), 0);
    assert!(!map.contains_key(&"a".to_string()));
    map.insert("a".to_string(), "1".to_string());
    map.insert("b".to_string(), "2".to_string());
    assert_eq!(map.len(), 2);
    assert_eq!(map.get(&"a".to_string()), Some(&"1".to_string()));
    // A later binding of the same name replaces the earlier one.
    map.insert("a".to_string(), "3".to_string());
    assert_eq!(map.len(), 2);
    assert_eq!(map.get(&"a".to_string()), Some(&"3".to_string()));
    assert_eq!(map.get(&"b".to_string()), Some(&"2".to_string()));
    let entry = map.entry_at(1);
    assert_eq!(entry.0, "b");
    assert_eq!(entry.1, "2");
}

#[test]
fn client_keeps_its_three_addresses() {
    let client = Client::new("echo", "127.0.0.1:8003", "127.0.0.1:8002");
    assert_eq!(client.name, "echo");
    assert_eq!(client.local_address, "127.0.0.1:8003");
    assert_eq!(client.proxy_address, "127.0.0.1:8002");
}

#[test]
fn config_from_parts_binds_later_duplicates() {
    let config = ProxyConfig::from_parts(
        "127.0.0.1:8002".to_string(),
        vec![
            ("echo".to_string(), "127.0.0.1:8001".to_string()),
            ("db".to_string(), "127.0.0.1:5432".to_string()),
            ("echo".to_string(), "127.0.0.1:9001".to_string()),
        ],
        vec![(
            "echo".to_string(),
            "127.0.0.1:8003".to_string(),
            "127.0.0.1:8002".to_string(),
        )],
    );
    assert_eq!(config.incomming.address, "127.0.0.1:8002");
    assert_eq!(
        config.incomming.services.get(&"echo".to_string()),
        Some(&"127.0.0.1:9001".to_string())
    );
    assert_eq!(config.incomming.services.len(), 2);
    let tunnel = config.outgoing.get(&"echo".to_string()).expect("echo tunnel");
    assert_eq!(tunnel.local_address, "127.0.0.1:8003");
    assert_eq!(tunnel.proxy_address, "127.0.0.1:8002");
}
