use kafka_shell::{bootstrap_servers, client_config};

#[test]
fn config_uses_every_bootstrap_address() {
    let addrs = vec!["h1:9092".to_string(), "h2:9092".to_string()];
    assert_eq!(bootstrap_servers(&addrs), Some("h1:9092,h2:9092".to_string()));
    let c = client_config(&addrs).unwrap();
    assert_eq!(c.get("bootstrap.servers"), Some("h1:9092,h2:9092"));
}

#[test]
fn config_with_one_address() {
    let addrs = vec!["h1:9092".to_string()];
    assert_eq!(bootstrap_servers(&addrs), Some("h1:9092".to_string()));
    let c = client_config(&addrs).unwrap();
    assert_eq!(c.get("bootstrap.servers"), Some("h1:9092"));
}

#[test]
fn config_without_addresses_is_refused() {
    assert_eq!(bootstrap_servers(&Vec::new()), None);
    assert!(client_config(&Vec::new()).is_none());
}
